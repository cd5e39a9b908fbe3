use gdfs::plan_invocation;
use gdfs::prep_fuseargs;
use gdfs::usage;
use gdfs::Invocation;

fn args_of(words: &[&str]) -> Vec<String> {
    words.iter().map(|w| w.to_string()).collect()
}

#[test]
fn help_alone_means_usage_and_no_mount() {
    let r = plan_invocation(&args_of(&["-h"]));
    assert!(matches!(r, Ok(Invocation::Usage)));
}

#[test]
fn long_help_means_usage_and_no_mount() {
    let r = plan_invocation(&args_of(&["--help"]));
    assert!(matches!(r, Ok(Invocation::Usage)));
}

#[test]
fn help_wins_even_with_a_mount_point() {
    let r = plan_invocation(&args_of(&["-h", "/mnt/point"]));
    assert!(matches!(r, Ok(Invocation::Usage)));
}

#[test]
fn no_mount_point_means_usage_and_no_mount() {
    let r = plan_invocation(&args_of(&[]));
    assert!(matches!(r, Ok(Invocation::Usage)));
}

#[test]
fn fuseopt_without_mount_point_means_usage() {
    let r = plan_invocation(&args_of(&["--fuseopt", "uid 1000"]));
    assert!(matches!(r, Ok(Invocation::Usage)));
}

#[test]
fn mount_point_without_fuseopts_mounts_with_no_options() {
    let r = plan_invocation(&args_of(&["/mnt/point"]));
    match r {
        Ok(Invocation::Mount { mountpoint, fuseargs }) => {
            assert_eq!(mountpoint, "/mnt/point");
            assert!(fuseargs.is_empty());
            assert!(prep_fuseargs(&fuseargs).is_empty());
        }
        other => panic!("expected a mount, got {:?}", other.is_ok()),
    }
}

#[test]
fn fuseopts_are_tokenized_in_order() {
    let r = plan_invocation(&args_of(&[
        "--fuseopt",
        "uid 1000",
        "--fuseopt",
        "allow_other",
        "/mnt/point",
    ]));
    match r {
        Ok(Invocation::Mount { mountpoint, fuseargs }) => {
            assert_eq!(mountpoint, "/mnt/point");
            assert_eq!(
                fuseargs,
                vec!["uid".to_string(), "1000".to_string(), "allow_other".to_string()]
            );
        }
        other => panic!("expected a mount, got {:?}", other.is_ok()),
    }
}

#[test]
fn first_free_argument_is_the_mount_point() {
    let r = plan_invocation(&args_of(&["/mnt/first", "/mnt/second"]));
    match r {
        Ok(Invocation::Mount { mountpoint, .. }) => {
            assert_eq!(mountpoint, "/mnt/first");
        }
        other => panic!("expected a mount, got {:?}", other.is_ok()),
    }
}

#[test]
fn unknown_flag_is_a_parse_error() {
    let r = plan_invocation(&args_of(&["--bogus", "/mnt/point"]));
    match r {
        Err(msg) => assert!(msg.contains("bogus")),
        Ok(_) => panic!("expected a parse error"),
    }
}

#[test]
fn fuseopt_without_value_is_a_parse_error() {
    let r = plan_invocation(&args_of(&["--fuseopt"]));
    assert!(r.is_err());
}

#[test]
fn usage_text_names_program_and_options() {
    let text = usage("gdfs");
    assert!(text.starts_with("Usage: gdfs [options] <mountpount>"));
    assert!(text.contains("--help"));
    assert!(text.contains("--fuseopt"));
    assert!(text.contains("print this help menu"));
}
