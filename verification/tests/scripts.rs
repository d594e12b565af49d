use termlibs::shell_files::{create_install_script, split_terminated_str};

#[test]
fn test_create_install_script_inserts_after_comments() {
    let data = "#!/bin/sh\n# header\nset -e\necho done\n";
    assert_eq!(
        create_install_script(data, "--app yq"),
        "#!/bin/sh\n# header\neval set -- --app yq \"$@\"\nset -e\necho done"
    );
}

#[test]
fn test_create_install_script_replaces_eval_line() {
    let data = "# header\neval set -- \"$@\"\necho done";
    assert_eq!(
        create_install_script(data, "--quiet"),
        "# header\neval set -- --quiet \"$@\"\necho done"
    );
}

#[test]
fn test_create_install_script_comments_only() {
    // A script of comments only is left as it is, with no argument line.
    let data = "# one\n# two";
    assert_eq!(create_install_script(data, "--x"), "# one\n# two");
    assert_eq!(create_install_script("", "--x"), "");
}

#[test]
fn test_split_terminated() {
    assert_eq!(
        split_terminated_str("a\n\nb\n", '\n'),
        vec!["a".to_string(), "".to_string(), "b".to_string()]
    );
    assert_eq!(split_terminated_str("", '\n'), Vec::<String>::new());
    assert_eq!(split_terminated_str("\n", '\n'), vec!["".to_string()]);
    assert_eq!(split_terminated_str("ab", '\n'), vec!["ab".to_string()]);
}
