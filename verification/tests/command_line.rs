use mojito::cli::{parse_cli_args, CliArgs};

fn words(list: &[&str]) -> Vec<String> {
    list.iter().map(|w| w.to_string()).collect()
}

fn parse(list: &[&str]) -> Result<CliArgs, String> {
    parse_cli_args(&words(list), &words(&["bundled"]))
}

#[test]
fn module_roots_preserve_cli_order_before_bundled_stdlib() {
    let cli = parse(&[
        "check",
        "main.mojo",
        "--module-path",
        "first",
        "-I",
        "second",
        "--stdlib=third",
    ])
    .unwrap();
    assert_eq!(&cli.link_options.search_roots[..3], &words(&["first", "second", "third"])[..]);
}

#[test]
fn module_root_options_require_paths() {
    assert!(parse(&["check", "--module-path"]).is_err());
    assert!(parse(&["check", "--stdlib="]).is_err());
}

#[test]
fn bundled_roots_stand_behind_the_given_ones() {
    let cli = parse(&["-I", "mine"]).unwrap();
    assert_eq!(cli.link_options.search_roots, words(&["mine", "bundled"]));
}

#[test]
fn arguments_keep_their_order() {
    let cli = parse(&["run", "--backend", "vm", "a.mojo", "-", "--help"]).unwrap();
    assert_eq!(cli.args, words(&["run", "a.mojo", "-", "--help"]));
    assert_eq!(cli.backend, Some("vm".to_string()));
}

#[test]
fn backend_behind_an_equals_sign() {
    assert_eq!(parse(&["--backend=other"]).unwrap().backend, Some("other".to_string()));
    assert_eq!(parse(&["run"]).unwrap().backend, None);
}

#[test]
fn command_line_errors_say_what_is_missing() {
    assert_eq!(parse(&["--backend"]), Err("--backend requires a name".to_string()));
    assert_eq!(parse(&["--stdlib"]), Err("--stdlib requires a path".to_string()));
    assert_eq!(parse(&["-I"]), Err("-I requires a path".to_string()));
    assert_eq!(parse(&["-I", ""]), Err("-I requires a non-empty path".to_string()));
    assert_eq!(
        parse(&["--module-path="]),
        Err("--module-path requires a non-empty path".to_string())
    );
    assert_eq!(parse(&["--fast"]), Err("unknown option '--fast'".to_string()));
}
