use lib::cli::auto_boot_args;

#[test]
fn direct_binary_args_insert_auto_verb() {
    let args = auto_boot_args(vec!["sim-auto".to_owned(), "diag".to_owned()]);
    assert_eq!(args, ["sim-auto", "auto", "diag"]);
}

#[test]
fn boot_args_keep_an_explicit_auto_verb() {
    let args = auto_boot_args(vec!["sim-auto".to_owned(), "auto".to_owned(), "diag".to_owned()]);
    assert_eq!(args, ["sim-auto", "auto", "diag"]);
}
