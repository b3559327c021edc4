use linkhop::cli::{arguments, usage};

#[test]
fn two_arguments_are_the_seed_and_the_directory() {
    let given = vec!["http://site/index".to_string(), "out/dir".to_string()];
    assert_eq!(
        arguments("prog", &given),
        Ok(("http://site/index".to_string(), "out/dir".to_string()))
    );
}

#[test]
fn any_other_number_of_arguments_gives_the_usage_line() {
    let line = "Usage: prog <url> <target_directory>".to_string();
    assert_eq!(arguments("prog", &Vec::new()), Err(line.clone()));
    assert_eq!(arguments("prog", &vec!["http://site/".to_string()]), Err(line.clone()));
    let three = vec!["a".to_string(), "b".to_string(), "c".to_string()];
    assert_eq!(arguments("prog", &three), Err(line));
}

#[test]
fn the_usage_line_names_the_program() {
    assert_eq!(usage("./crawl"), "Usage: ./crawl <url> <target_directory>");
    assert_eq!(usage(""), "Usage:  <url> <target_directory>");
}
