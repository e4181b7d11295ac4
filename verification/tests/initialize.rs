use hkdfguard::initialize::arguments::{parse_args, usage, Args, ParseOutcome};
use hkdfguard::initialize::delete::{secure_delete, DeleteStep, PassOutcome};
use hkdfguard::initialize::run::{prepare_with, run, RunStep, WrapReply};
use hkdfguard::initialize::service::{
    check_dek, combine_service, describe_status, validate_service_charset,
};
use hkdfguard::status;
use hkdfguard::text::{
    decimal_text, hex_encode, join_path, parse_number, signed_decimal_text,
};

fn words(words: &[&str]) -> Vec<String> {
    words.iter().map(|w| w.to_string()).collect()
}

fn refused(list: &[&str]) -> String {
    match parse_args(words(list)) {
        Err(message) => message,
        Ok(_) => panic!("expected a refusal"),
    }
}

fn sample_args() -> Args {
    Args {
        key_file_path: "/k".to_string(),
        material_identifier: 7,
        service_name: "svc".to_string(),
        dek_base64: "AAECAwQFBgcICQoLDA0ODxAREhMUFRYXGBkaGxwdHh8=".to_string(),
        force: false,
    }
}

#[test]
fn validate_service_charset_accepts_alphanumerics_and_dots() {
    assert!(validate_service_charset("com.example.orders.5").is_ok());
    assert!(validate_service_charset("Service123.42").is_ok());
}

#[test]
fn validate_service_charset_rejects_other_characters() {
    for bad in ["com_example.5", "com example.5", "com-example.5", "com/example.5"] {
        assert!(validate_service_charset(bad).is_err(), "should reject \"{bad}\"");
    }
}

#[test]
fn parse_args_rejects_material_identifier_out_of_range() {
    let argv = ["prog", "key.bin", "-mi", "0", "-sn", "svc", "-d", "AAAA"]
        .into_iter()
        .map(String::from);
    assert!(parse_args(argv.collect()).is_err());

    let argv = ["prog", "key.bin", "-mi", "257", "-sn", "svc", "-d", "AAAA"]
        .into_iter()
        .map(String::from);
    assert!(parse_args(argv.collect()).is_err());
}

#[test]
fn parse_args_accepts_boundary_material_identifiers() {
    for value in ["1", "256"] {
        let argv = ["prog", "key.bin", "-mi", value, "-sn", "svc", "-d", "AAAA"]
            .into_iter()
            .map(String::from);
        assert!(
            matches!(parse_args(argv.collect()), Ok(ParseOutcome::Run(_))),
            "should accept {value}"
        );
    }
}

#[test]
fn arguments_may_come_in_any_order() {
    let line = [
        "prog", "--dek", "AAAA", "-f", "--service-name", "svc", "k", "--material-identifier", "+12",
    ];
    match parse_args(words(&line)) {
        Ok(ParseOutcome::Run(args)) => {
            assert_eq!(args.key_file_path, "k");
            assert_eq!(args.material_identifier, 12);
            assert_eq!(args.service_name, "svc");
            assert_eq!(args.dek_base64, "AAAA");
            assert!(args.force);
        }
        other => panic!("unexpected {other:?}"),
    }
    assert!(matches!(parse_args(words(&["prog", "k", "--help"])), Ok(ParseOutcome::Help)));
    assert!(matches!(parse_args(words(&["prog", "-h", "-x"])), Ok(ParseOutcome::Help)));
}

#[test]
fn neither_order_nor_spelling_matters() {
    let parts: [[&[&str]; 2]; 5] = [
        [&["k"], &["k"]],
        [&["--force"], &["-f"]],
        [&["--material-identifier", "12"], &["-mi", "12"]],
        [&["--service-name", "svc"], &["-sn", "svc"]],
        [&["--dek", "-f"], &["-d", "-f"]],
    ];
    for shift in 0..5 {
        for spelling in 0..32 {
            let mut line = vec!["prog"];
            for i in 0..5 {
                let part = (i * 2 + shift) % 5;
                line.extend(parts[part][(spelling >> part) & 1]);
            }
            match parse_args(words(&line)) {
                Ok(ParseOutcome::Run(args)) => {
                    assert_eq!(args.key_file_path, "k");
                    assert_eq!(args.material_identifier, 12);
                    assert_eq!(args.service_name, "svc");
                    assert_eq!(args.dek_base64, "-f");
                    assert!(args.force);
                }
                other => panic!("unexpected {other:?}"),
            }
        }
    }
}

#[test]
fn refused_command_lines_have_their_messages() {
    assert_eq!(refused(&[]), "missing required <key-file-path>");
    assert_eq!(refused(&["prog"]), "missing required <key-file-path>");
    assert_eq!(refused(&["prog", "k"]), "missing required --material-identifier|-mi");
    assert_eq!(refused(&["prog", "k", "-mi", "1"]), "missing required --service-name|-sn");
    assert_eq!(
        refused(&["prog", "k", "-mi", "1", "-sn", "s"]),
        "missing required --dek|-d"
    );
    assert_eq!(refused(&["prog", "-mi"]), "-mi requires a value");
    assert_eq!(refused(&["prog", "--service-name"]), "--service-name requires a value");
    assert_eq!(refused(&["prog", "k", "-d"]), "-d requires a value");
    assert_eq!(refused(&["prog", "-sn", ""]), "--service-name must not be empty");
    assert_eq!(
        refused(&["prog", "-mi", "x1"]),
        "--material-identifier must be an integer, got \"x1\""
    );
    assert_eq!(
        refused(&["prog", "-mi", "4294967296"]),
        "--material-identifier must be an integer, got \"4294967296\""
    );
    assert_eq!(
        refused(&["prog", "-mi", "4294967295"]),
        "--material-identifier must be between 1 and 256, got 4294967295"
    );
    assert_eq!(refused(&["prog", "k", "l"]), "unrecognized argument: l");
    assert_eq!(refused(&["prog", "-x"]), "unrecognized argument: -x");
}

#[test]
fn usage_names_every_option() {
    assert_eq!(
        usage(),
        "Usage: hkdfguard-v1-initialize <key-file-path> --material-identifier|-mi <1-256> \
         --service-name|-sn <name> --dek|-d <base64> [--force|-f]"
    );
}

#[test]
fn services_are_combined_with_a_dot() {
    assert_eq!(combine_service("com.example", 256), "com.example.256");
    assert_ne!(combine_service("a.1", 2), combine_service("a", 12));
    assert_eq!(
        validate_service_charset("a b.1"),
        Err(
            "combined service name \"a b.1\" must contain only alphanumeric characters or '.'"
                .to_string()
        )
    );
}

#[test]
fn status_codes_are_described() {
    assert_eq!(
        describe_status(status::INVALID_ARGUMENT),
        "invalid argument (bad service name or DEK length)"
    );
    assert_eq!(
        describe_status(status::PROVIDER_UNAVAILABLE),
        "no KEK provider is available on this host"
    );
    assert_eq!(describe_status(status::PROVIDER_ERROR), "the selected KEK provider failed");
    assert_eq!(describe_status(status::CRYPTO_ERROR), "a cryptographic operation failed");
    assert_eq!(
        describe_status(status::INTERNAL_ERROR),
        "an internal error occurred in the hkdfguard library"
    );
    assert_eq!(describe_status(status::INVALID_UTF8), "the service name is not valid UTF-8");
    assert_eq!(describe_status(status::BUFFER_TOO_SMALL), "unknown status code -2");
    assert_eq!(describe_status(i32::MIN), "unknown status code -2147483648");
    assert_eq!(describe_status(17), "unknown status code 17");
}

#[test]
fn keys_must_decode_to_32_bytes() {
    assert_eq!(check_dek(Ok(vec![4u8; 32])), Ok([4u8; 32]));
    assert_eq!(
        check_dek(Ok(vec![4u8; 31])),
        Err("--dek must decode to exactly 32 bytes, got 31".to_string())
    );
    assert_eq!(
        check_dek(Err("odd".to_string())),
        Err("--dek is not valid base64: odd".to_string())
    );
}

#[test]
fn the_key_is_decoded_before_it_is_wrapped() {
    let step = match run(sample_args()) {
        RunStep::Exists(query) => query.answered(false),
        _ => panic!("unexpected step"),
    };
    match step {
        RunStep::Wrap(query) => {
            let (service, dek, capacity) = query.parameters();
            assert_eq!(service, "svc.7");
            assert_eq!(*dek, core::array::from_fn::<u8, 32, _>(|i| i as u8));
            assert_eq!(capacity, 512);
        }
        _ => panic!("unexpected step"),
    }

    let mut args = sample_args();
    args.dek_base64 = "!".to_string();
    match run(args) {
        RunStep::Exists(query) => match query.answered(false) {
            RunStep::Failed(message) => {
                assert!(message.starts_with("--dek is not valid base64: "))
            }
            _ => panic!("unexpected step"),
        },
        _ => panic!("unexpected step"),
    }
}

#[test]
fn an_inadmissible_service_name_ends_the_run() {
    let mut args = sample_args();
    args.service_name = "a/b".to_string();
    match prepare_with(args, Ok(vec![0u8; 32])) {
        RunStep::Failed(message) => assert_eq!(
            message,
            "combined service name \"a/b.7\" must contain only alphanumeric characters or '.'"
        ),
        _ => panic!("unexpected step"),
    }
}

#[test]
fn a_small_buffer_is_replaced_once() {
    let query = match prepare_with(sample_args(), Ok(vec![0u8; 32])) {
        RunStep::Wrap(query) => query,
        _ => panic!("unexpected step"),
    };
    let refuse = |len| WrapReply {
        code: status::BUFFER_TOO_SMALL,
        buffer: vec![0u8; 4],
        len,
    };
    let again = match query.answered(refuse(600)) {
        RunStep::Wrap(query) => query,
        _ => panic!("unexpected step"),
    };
    assert_eq!(again.parameters().2, 600);
    match again.answered(refuse(700)) {
        RunStep::Failed(message) => {
            assert_eq!(message, "hkdfguard_wrap_dek failed: unknown status code -2")
        }
        _ => panic!("unexpected step"),
    }
}

#[test]
fn failed_outputs_have_their_messages() {
    let at_stage = |stage: usize| {
        let mut step = match prepare_with(sample_args(), Ok(vec![0u8; 32])) {
            RunStep::Wrap(query) => query.answered(WrapReply {
                code: status::OK,
                buffer: vec![1, 2, 3, 0, 0],
                len: 3,
            }),
            _ => panic!("unexpected step"),
        };
        let mut n = 0;
        loop {
            step = match step {
                RunStep::Output(query) => {
                    assert_eq!(query.parameters(), ("/k", &[1u8, 2, 3][..]));
                    let r = if n == stage {
                        Err("disk full".to_string())
                    } else {
                        Ok(())
                    };
                    n += 1;
                    query.answered(r)
                }
                RunStep::Done(message) => return message,
                RunStep::Failed(message) => return message,
                _ => panic!("unexpected step"),
            };
        }
    };
    assert_eq!(at_stage(0), "failed to open /k: disk full");
    assert_eq!(at_stage(1), "failed to write /k: disk full");
    assert_eq!(at_stage(2), "failed to set permissions on /k: disk full");
    assert_eq!(at_stage(3), "wrapped key written to /k (3 bytes, service \"svc.7\")");
}

#[test]
fn failed_deletions_have_their_messages() {
    let reason = || "denied".to_string();
    let message = |step: DeleteStep| match step {
        DeleteStep::Failed(message) => message,
        _ => panic!("expected a failure"),
    };
    let open = || match secure_delete("/f") {
        DeleteStep::Stat(query) => match query.answered(Ok(3)) {
            DeleteStep::Open(query) => query,
            _ => panic!("unexpected step"),
        },
        _ => panic!("unexpected step"),
    };
    let pass = || match open().answered(Ok(())) {
        DeleteStep::Pass(query) => query,
        _ => panic!("unexpected step"),
    };
    assert_eq!(
        message(open().answered(Err(reason()))),
        "failed to open /f for secure delete: denied"
    );
    assert_eq!(
        message(pass().answered(PassOutcome::SeekFailed(reason()))),
        "secure delete: failed to seek /f: denied"
    );
    assert_eq!(
        message(pass().answered(PassOutcome::WriteFailed(reason()))),
        "secure delete: failed to write /f: denied"
    );
    assert_eq!(
        message(pass().answered(PassOutcome::SyncFailed(reason()))),
        "secure delete: failed to sync /f: denied"
    );
    let mut step = open().answered(Ok(()));
    loop {
        step = match step {
            DeleteStep::Pass(query) => query.answered(PassOutcome::Done),
            DeleteStep::Remove(query) => {
                assert_eq!(
                    message(query.answered(Err(reason()))),
                    "failed to remove /f after secure delete: denied"
                );
                return;
            }
            _ => panic!("unexpected step"),
        };
    }
}

#[test]
fn numbers_are_written_and_read() {
    assert_eq!(decimal_text(0), "0");
    assert_eq!(decimal_text(u64::MAX), "18446744073709551615");
    assert_eq!(signed_decimal_text(-5), "-5");
    assert_eq!(parse_number("0042", 100), Some(42));
    assert_eq!(parse_number("+7", 100), Some(7));
    assert_eq!(parse_number("100", 100), Some(100));
    assert_eq!(parse_number("101", 100), None);
    assert_eq!(parse_number("18446744073709551616", u64::MAX), None);
    for bad in ["", "+", "-1", "1 ", "++1", "\u{661}"] {
        assert_eq!(parse_number(bad, u64::MAX), None, "should refuse \"{bad}\"");
    }
}

#[test]
fn bytes_are_written_in_hexadecimal() {
    assert_eq!(hex_encode(&[0x00, 0x0F, 0xA5, 0xFF]), "000fa5ff");
    assert_eq!(hex_encode(&[]), "");
}

#[test]
fn paths_are_joined_as_unix_does() {
    assert_eq!(join_path("/a", "b"), "/a/b");
    assert_eq!(join_path("/a/", "b"), "/a/b");
    assert_eq!(join_path("", "b"), "b");
    assert_eq!(join_path("/a", "/b"), "/b");
    assert_eq!(
        join_path("/a", "b"),
        std::path::Path::new("/a").join("b").to_str().unwrap()
    );
}
