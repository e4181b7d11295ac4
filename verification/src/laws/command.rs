//! The command, said of its words, characters and files.
use crate::abi::wrap_reply;
use crate::bytes::bytes_or_reason;
use crate::error::ErrorView;
use crate::initialize::arguments::{
    identifier, message_view, parsed, Args, ArgsView, OutcomeView, ParseOutcome, PartialView,
};
use crate::initialize::delete::{
    after_open, after_pass, after_remove, after_stat, length_view, pass_bytes, DeleteView,
    PassOutcome, PassOutcomeView,
};
use crate::initialize::run::{
    after_delete, after_exists, after_output, after_wrap, interface_reply, prepared, OutputStage,
    RunView, WrapReply, WrapReplyView, Wrapping, Writing,
};
use crate::initialize::service::{
    charset_message, checked_dek, combined_service, is_service_char, is_service_name,
    key_or_message, status_description,
};
use crate::primitives::memory::zeros;
use crate::text::{decimal, parsed_number, signed_decimal};
use vstd::prelude::*;

verus! {

/// The characters of a combined name, by their code points: the lowercase letters, the uppercase
/// letters, the digits and the dot. A name is admissible exactly where it holds no others.
pub proof fn admissible_characters_are_letters_digits_and_the_dot(c: char, service: Seq<char>)
    ensures
        is_service_char(c) <==> (0x61 <= c as int <= 0x7a || 0x41 <= c as int <= 0x5a || 0x30
            <= c as int <= 0x39 || c as int == 0x2e),
        is_service_name(service) <==> (forall|i: int|
            0 <= i < service.len() ==> {
                let c = (#[trigger] service[i]) as int;
                0x61 <= c <= 0x7a || 0x41 <= c <= 0x5a || 0x30 <= c <= 0x39 || c == 0x2e
            }),
        charset_message(service) == "combined service name \""@ + service
            + "\" must contain only alphanumeric characters or '.'"@,
{
    assert forall|i: int| 0 <= i < service.len() implies is_service_char(#[trigger] service[i]) == {
        let c = service[i] as int;
        0x61 <= c <= 0x7a || 0x41 <= c <= 0x5a || 0x30 <= c <= 0x39 || c == 0x2e
    } by {}
    if forall|i: int|
        0 <= i < service.len() ==> {
            let c = (#[trigger] service[i]) as int;
            0x61 <= c <= 0x7a || 0x41 <= c <= 0x5a || 0x30 <= c <= 0x39 || c == 0x2e
        } {
        assert forall|i: int| 0 <= i < service.len() implies is_service_char(
            #[trigger] service[i],
        ) by {}
    }
    if is_service_name(service) {
        assert forall|i: int| 0 <= i < service.len() implies {
            let c = (#[trigger] service[i]) as int;
            0x61 <= c <= 0x7a || 0x41 <= c <= 0x5a || 0x30 <= c <= 0x39 || c == 0x2e
        } by {
            assert(is_service_char(service[i]));
        }
    }
}

/// A combined name is the whole service name, a dot and the numeral of the identifier.
pub proof fn combined_names_keep_both_parts(name: Seq<char>, material_identifier: u32)
    ensures
        combined_service(name, material_identifier) == name.push('.') + decimal(
            material_identifier as nat,
        ),
{
    reveal_strlit(".");
    assert(name + "."@ =~= name.push('.'));
}

/// A run whose key decodes to 32 bytes and whose service name holds letters, digits and dots only
/// goes on to wrap that key for the combined name, with room for 512 bytes; a run whose service
/// name holds any other character does not.
pub proof fn admissible_runs_go_on_to_the_wrapping(args: ArgsView, dek: Seq<u8>)
    requires
        dek.len() == 32,
    ensures
        ({
            let service = args.service_name.push('.') + decimal(args.material_identifier as nat);
            let admissible = forall|i: int|
                0 <= i < args.service_name.len() ==> {
                    let c = (#[trigger] args.service_name[i]) as int;
                    0x61 <= c <= 0x7a || 0x41 <= c <= 0x5a || 0x30 <= c <= 0x39 || c == 0x2e
                };
            &&& admissible ==> prepared(args, Ok(dek)) == RunView::Wrap(
                (Wrapping {
                    path: args.key_file_path,
                    service,
                    dek,
                    capacity: 512,
                    retried: false,
                }),
            )
            &&& !admissible ==> prepared(args, Ok(dek)) == RunView::Failed(
                "combined service name \""@ + service
                    + "\" must contain only alphanumeric characters or '.'"@,
            )
        }),
{
    crate::initialize::service::identifiers_are_admissible(
        args.service_name,
        args.material_identifier,
    );
    admissible_characters_are_letters_digits_and_the_dot('a', args.service_name);
    combined_names_keep_both_parts(args.service_name, args.material_identifier);
}

/// A key that is not 32 bytes of base64 ends the run, with the reason or the length.
pub proof fn other_keys_end_the_run(args: ArgsView, bytes: Seq<u8>, reason: Seq<char>)
    ensures
        prepared(args, Err(reason)) == RunView::Failed("--dek is not valid base64: "@ + reason),
        checked_dek(Err(reason)) == Err::<Seq<u8>, Seq<char>>(
            "--dek is not valid base64: "@ + reason,
        ),
        bytes.len() == 32 ==> checked_dek(Ok(bytes)) == Ok::<Seq<u8>, Seq<char>>(bytes),
        bytes.len() != 32 ==> {
            let message = "--dek must decode to exactly 32 bytes, got "@ + decimal(bytes.len());
            &&& checked_dek(Ok(bytes)) == Err::<Seq<u8>, Seq<char>>(message)
            &&& prepared(args, Ok(bytes)) == RunView::Failed(message)
        },
{
}

/// A run goes on where the file does not exist, or was to be replaced and is gone.
pub proof fn runs_look_at_the_file_first(
    args: ArgsView,
    decoded: Result<Seq<u8>, Seq<char>>,
    message: Seq<char>,
)
    ensures
        after_exists(args, false, decoded) == prepared(args, decoded),
        args.force ==> after_exists(args, true, decoded) == RunView::Delete(args),
        !args.force ==> after_exists(args, true, decoded) == RunView::Failed(
            args.key_file_path + " already exists; pass --force|-f to overwrite"@,
        ),
        after_delete(args, Ok(()), decoded) == prepared(args, decoded),
        after_delete(args, Err(message), decoded) == RunView::Failed(message),
{
}

/// A reply of success is written as far as its length says; a reply of -2 is tried again once, with
/// the length that it reports; every other reply ends the run with its description.
pub proof fn replies_decide_the_run(wrapping: Wrapping, reply: WrapReplyView)
    ensures
        reply.code == 0 ==> after_wrap(wrapping, reply) == RunView::Output(
            (Writing {
                path: wrapping.path,
                service: wrapping.service,
                wrapped: if reply.len < reply.buffer.len() {
                    reply.buffer.subrange(0, reply.len as int)
                } else {
                    reply.buffer
                },
                stage: OutputStage::Open,
            }),
        ),
        reply.code == -2 && !wrapping.retried ==> after_wrap(wrapping, reply) == RunView::Wrap(
            (Wrapping {
                path: wrapping.path,
                service: wrapping.service,
                dek: wrapping.dek,
                capacity: reply.len,
                retried: true,
            }),
        ),
        reply.code != 0 && (reply.code != -2 || wrapping.retried) ==> after_wrap(wrapping, reply)
            == RunView::Failed("hkdfguard_wrap_dek failed: "@ + status_description(reply.code)),
{
}

/// What each status code means.
pub proof fn status_codes_have_their_descriptions(code: i32)
    ensures
        status_description(-1i32) == "invalid argument (bad service name or DEK length)"@,
        status_description(-3i32) == "no KEK provider is available on this host"@,
        status_description(-4i32) == "the selected KEK provider failed"@,
        status_description(-5i32) == "a cryptographic operation failed"@,
        status_description(-6i32) == "an internal error occurred in the hkdfguard library"@,
        status_description(-7i32) == "the service name is not valid UTF-8"@,
        code != -1 && !(-7 <= code <= -3) ==> status_description(code) == "unknown status code "@
            + signed_decimal(code as int),
{
}

/// The file is opened, written and closed to others, in this order; then the run has succeeded, and
/// says where, how much and for which service. Each failure names what failed.
pub proof fn the_file_is_written_in_three_stages(writing: Writing, reason: Seq<char>)
    ensures
        writing.stage == OutputStage::Open ==> {
            &&& after_output(writing, Ok(())) == RunView::Output(
                (Writing { stage: OutputStage::Write, ..writing }),
            )
            &&& after_output(writing, Err(reason)) == RunView::Failed(
                "failed to open "@ + writing.path + ": "@ + reason,
            )
        },
        writing.stage == OutputStage::Write ==> {
            &&& after_output(writing, Ok(())) == RunView::Output(
                (Writing { stage: OutputStage::Limit, ..writing }),
            )
            &&& after_output(writing, Err(reason)) == RunView::Failed(
                "failed to write "@ + writing.path + ": "@ + reason,
            )
        },
        writing.stage == OutputStage::Limit ==> {
            &&& after_output(writing, Ok(())) == RunView::Done(
                "wrapped key written to "@ + writing.path + " ("@ + decimal(writing.wrapped.len())
                    + " bytes, service \""@ + writing.service + "\")"@,
            )
            &&& after_output(writing, Err(reason)) == RunView::Failed(
                "failed to set permissions on "@ + writing.path + ": "@ + reason,
            )
        },
        crate::initialize::run::KEY_FILE_MODE == 416,
{
}

/// What comes back is seen whole, and the interface's reply is that of its rules.
pub proof fn replies_are_seen_whole(
    reply: WrapReply,
    bytes: Vec<u8>,
    reason: String,
    key: [u8; 32],
    wrapped: Seq<u8>,
    capacity: i32,
)
    ensures
        reply@.code == reply.code && reply@.buffer == reply.buffer@ && reply@.len == reply.len,
        bytes_or_reason(Ok(bytes)) == Ok::<Seq<u8>, Seq<char>>(bytes@),
        bytes_or_reason(Err(reason)) == Err::<Seq<u8>, Seq<char>>(reason@),
        key_or_message(Ok(key)) == Ok::<Seq<u8>, Seq<char>>(key@),
        key_or_message(Err(reason)) == Err::<Seq<u8>, Seq<char>>(reason@),
        ({
            let given = wrap_reply(
                Ok::<Seq<u8>, ErrorView>(wrapped),
                zeros(capacity as nat),
                true,
                capacity,
            );
            let seen = interface_reply(wrapped, capacity);
            seen.code == given.code && seen.buffer == given.out && seen.len == given.out_len as nat
        }),
{
}

/// A material identifier is a number from 1 to 256; each refusal says what was given.
pub proof fn identifiers_are_1_to_256(text: Seq<char>)
    ensures
        match parsed_number(text, 4294967295) {
            None => identifier(text) == Err::<u32, Seq<char>>(
                "--material-identifier must be an integer, got \""@ + text + "\""@,
            ),
            Some(n) => identifier(text) == (if 1 <= n <= 256 {
                Ok::<u32, Seq<char>>(n as u32)
            } else {
                Err("--material-identifier must be between 1 and 256, got "@ + decimal(n))
            }),
        },
{
}

/// The options are ten different words, all of which start with a dash.
proof fn options_differ()
    ensures
        "--help"@[0] == '-' && "-h"@[0] == '-' && "--force"@[0] == '-' && "-f"@[0] == '-',
        "--material-identifier"@[0] == '-' && "-mi"@[0] == '-' && "--service-name"@[0] == '-',
        "-sn"@[0] == '-' && "--dek"@[0] == '-' && "-d"@[0] == '-',
        "--help"@.len() == 6 && "-h"@.len() == 2 && "--force"@.len() == 7 && "-f"@.len() == 2,
        "--material-identifier"@.len() == 21 && "-mi"@.len() == 3 && "--service-name"@.len() == 14,
        "-sn"@.len() == 3 && "--dek"@.len() == 5 && "-d"@.len() == 2,
        "-h"@[1] == 'h' && "-f"@[1] == 'f' && "-d"@[1] == 'd' && "-mi"@[1] == 'm' && "-sn"@[1]
            == 's',
{
    reveal_strlit("--help");
    reveal_strlit("-h");
    reveal_strlit("--force");
    reveal_strlit("-f");
    reveal_strlit("--material-identifier");
    reveal_strlit("-mi");
    reveal_strlit("--service-name");
    reveal_strlit("-sn");
    reveal_strlit("--dek");
    reveal_strlit("-d");
}

/// What one word does, whatever was read before it and whatever follows: help ends the reading; an
/// option takes effect, with the word behind it where it has a value; the first word that is no
/// option and does not look like one is the path; anything else is refused.
pub proof fn words_do_what_they_say(words: Seq<Seq<char>>, i: int, partial: PartialView)
    requires
        0 <= i < words.len(),
    ensures
        ({
            let word = words[i];
            let is_option = word == "--help"@ || word == "-h"@ || word == "--force"@ || word
                == "-f"@ || word == "--material-identifier"@ || word == "-mi"@ || word
                == "--service-name"@ || word == "-sn"@ || word == "--dek"@ || word == "-d"@;
            let takes_value = word == "--material-identifier"@ || word == "-mi"@ || word
                == "--service-name"@ || word == "-sn"@ || word == "--dek"@ || word == "-d"@;
            let read = parsed(words, i, partial);
            &&& word == "--help"@ || word == "-h"@ ==> read == Ok::<OutcomeView, Seq<char>>(
                OutcomeView::Help,
            )
            &&& word == "--force"@ || word == "-f"@ ==> read == parsed(
                words,
                i + 1,
                (PartialView { force: true, ..partial }),
            )
            &&& takes_value && i + 1 == words.len() ==> read == Err::<OutcomeView, Seq<char>>(
                word + " requires a value"@,
            )
            &&& i + 1 < words.len() && (word == "--material-identifier"@ || word == "-mi"@)
                ==> match identifier(words[i + 1]) {
                Ok(n) => read == parsed(
                    words,
                    i + 2,
                    (PartialView { material_identifier: Some(n), ..partial }),
                ),
                Err(message) => read == Err::<OutcomeView, Seq<char>>(message),
            }
            &&& i + 1 < words.len() && (word == "--service-name"@ || word == "-sn"@) ==> read == (
            if words[i + 1].len() > 0 {
                parsed(
                    words,
                    i + 2,
                    (PartialView { service_name: Some(words[i + 1]), ..partial }),
                )
            } else {
                Err("--service-name must not be empty"@)
            })
            &&& i + 1 < words.len() && (word == "--dek"@ || word == "-d"@) ==> read == parsed(
                words,
                i + 2,
                (PartialView { dek_base64: Some(words[i + 1]), ..partial }),
            )
            &&& !is_option && partial.key_file_path is None && (word.len() == 0 || word[0] != '-')
                ==> read == parsed(
                words,
                i + 1,
                (PartialView { key_file_path: Some(word), ..partial }),
            )
            &&& !is_option && (partial.key_file_path is Some || (word.len() > 0 && word[0] == '-'))
                ==> read == Err::<OutcomeView, Seq<char>>("unrecognized argument: "@ + word)
        }),
{
    options_differ();
}

/// At the end of the words all four arguments must have been given; the first that is missing is
/// named. What was given is what the run gets.
pub proof fn complete_words_ask_for_a_run(
    words: Seq<Seq<char>>,
    i: int,
    path: Seq<char>,
    n: u32,
    name: Seq<char>,
    dek: Seq<char>,
    force: bool,
    partial: PartialView,
)
    requires
        i >= words.len(),
    ensures
        parsed(
            words,
            i,
            (PartialView {
                key_file_path: Some(path),
                material_identifier: Some(n),
                service_name: Some(name),
                dek_base64: Some(dek),
                force,
            }),
        ) == Ok::<OutcomeView, Seq<char>>(
            OutcomeView::Run(
                (ArgsView {
                    key_file_path: path,
                    material_identifier: n,
                    service_name: name,
                    dek_base64: dek,
                    force,
                }),
            ),
        ),
        ({
            let read = parsed(words, i, partial);
            &&& partial.key_file_path is None ==> read == Err::<OutcomeView, Seq<char>>(
                "missing required <key-file-path>"@,
            )
            &&& partial.key_file_path is Some && partial.material_identifier is None ==> read
                == Err::<OutcomeView, Seq<char>>("missing required --material-identifier|-mi"@)
            &&& partial.key_file_path is Some && partial.material_identifier is Some
                && partial.service_name is None ==> read == Err::<OutcomeView, Seq<char>>(
                "missing required --service-name|-sn"@,
            )
            &&& partial.key_file_path is Some && partial.material_identifier is Some
                && partial.service_name is Some && partial.dek_base64 is None ==> read == Err::<
                OutcomeView,
                Seq<char>,
            >("missing required --dek|-d"@)
        }),
{
}

/// A whole command line, in the short or the long spelling of each option, asks for a run with
/// exactly what stands behind its options.
pub proof fn whole_command_lines_give_their_values(
    words: Seq<Seq<char>>,
    path: Seq<char>,
    text: Seq<char>,
    n: nat,
    name: Seq<char>,
    dek: Seq<char>,
)
    requires
        words.len() == 8 || words.len() == 9,
        words[1] == path && (path.len() == 0 || path[0] != '-'),
        words[2] == "-mi"@ || words[2] == "--material-identifier"@,
        words[3] == text && parsed_number(text, 4294967295) == Some(n) && 1 <= n <= 256,
        words[4] == "-sn"@ || words[4] == "--service-name"@,
        words[5] == name && name.len() > 0,
        words[6] == "-d"@ || words[6] == "--dek"@,
        words[7] == dek,
        words.len() == 9 ==> words[8] == "-f"@ || words[8] == "--force"@,
    ensures
        parsed(words, 1, PartialView::empty()) == Ok::<OutcomeView, Seq<char>>(
            OutcomeView::Run(
                (ArgsView {
                    key_file_path: path,
                    material_identifier: n as u32,
                    service_name: name,
                    dek_base64: dek,
                    force: words.len() == 9,
                }),
            ),
        ),
{
    let p0 = PartialView::empty();
    let p1 = PartialView { key_file_path: Some(path), ..p0 };
    let p2 = PartialView { material_identifier: Some(n as u32), ..p1 };
    let p3 = PartialView { service_name: Some(name), ..p2 };
    let p4 = PartialView { dek_base64: Some(dek), ..p3 };
    identifiers_are_1_to_256(text);
    assert(parsed(words, 1, p0) == parsed(words, 2, p1)) by {
        options_differ();
        words_do_what_they_say(words, 1, p0);
    }
    assert(parsed(words, 2, p1) == parsed(words, 4, p2)) by {
        words_do_what_they_say(words, 2, p1);
    }
    assert(parsed(words, 4, p2) == parsed(words, 6, p3)) by {
        words_do_what_they_say(words, 4, p2);
    }
    assert(parsed(words, 6, p3) == parsed(words, 8, p4)) by {
        words_do_what_they_say(words, 6, p3);
    }
    if words.len() == 9 {
        words_do_what_they_say(words, 8, p4);
        complete_words_ask_for_a_run(words, 9, path, n as u32, name, dek, true, p4);
    } else {
        complete_words_ask_for_a_run(words, 8, path, n as u32, name, dek, false, p4);
    }
}

/// The arguments of a run are seen whole.
pub proof fn arguments_are_seen_whole(args: Args, message: String)
    ensures
        args@.key_file_path == args.key_file_path@,
        args@.material_identifier == args.material_identifier,
        args@.service_name == args.service_name@,
        args@.dek_base64 == args.dek_base64@,
        args@.force == args.force,
        ParseOutcome::Run(args)@ == OutcomeView::Run(args@),
        ParseOutcome::Help@ == OutcomeView::Help,
        message_view(Err::<ParseOutcome, String>(message)) == Err::<OutcomeView, Seq<char>>(
            message@,
        ),
        message_view(Ok::<ParseOutcome, String>(ParseOutcome::Run(args))) == Ok::<
            OutcomeView,
            Seq<char>,
        >(OutcomeView::Run(args@)),
        PartialView::empty() == (PartialView {
            key_file_path: None,
            material_identifier: None,
            service_name: None,
            dek_base64: None,
            force: false,
        }),
{
}

/// A deletion finds out the length, opens the file, fills it eight times from its start with as
/// many bytes as it is long, zeros first and what was drawn every other time, and removes it;
/// each failure names what failed.
pub proof fn deletions_go_step_by_step(
    path: Seq<char>,
    len: nat,
    pass: nat,
    random: Seq<u8>,
    reason: Seq<char>,
)
    ensures
        after_stat(path, Ok(len)) == DeleteView::Open(path, len),
        after_stat(path, Err(reason)) == DeleteView::Failed(
            "failed to stat "@ + path + ": "@ + reason,
        ),
        after_open(path, len, Ok(())) == DeleteView::Pass(path, zeros(len), 0),
        after_open(path, len, Err(reason)) == DeleteView::Failed(
            "failed to open "@ + path + " for secure delete: "@ + reason,
        ),
        pass == 0 || pass == 2 || pass == 4 || pass == 6 ==> after_pass(
            path,
            len,
            pass,
            PassOutcomeView::Done,
            random,
        ) == DeleteView::Pass(path, random, pass + 1),
        pass == 1 || pass == 3 || pass == 5 ==> after_pass(
            path,
            len,
            pass,
            PassOutcomeView::Done,
            random,
        ) == DeleteView::Pass(path, zeros(len), pass + 1),
        after_pass(path, len, 7, PassOutcomeView::Done, random) == DeleteView::Remove(path),
        after_pass(path, len, pass, PassOutcomeView::SeekFailed(reason), random)
            == DeleteView::Failed("secure delete: failed to seek "@ + path + ": "@ + reason),
        after_pass(path, len, pass, PassOutcomeView::WriteFailed(reason), random)
            == DeleteView::Failed("secure delete: failed to write "@ + path + ": "@ + reason),
        after_pass(path, len, pass, PassOutcomeView::SyncFailed(reason), random)
            == DeleteView::Failed("secure delete: failed to sync "@ + path + ": "@ + reason),
        after_remove(path, Ok(())) == DeleteView::Done,
        after_remove(path, Err(reason)) == DeleteView::Failed(
            "failed to remove "@ + path + " after secure delete: "@ + reason,
        ),
        pass_bytes(len, 2 * pass, random) == zeros(len),
        pass_bytes(len, 2 * pass + 1, random) == random,
{
}

/// What a deletion is told is seen whole.
pub proof fn deletion_answers_are_seen_whole(reason: String, len: usize)
    ensures
        length_view(Ok(len)) == Ok::<nat, Seq<char>>(len as nat),
        length_view(Err(reason)) == Err::<nat, Seq<char>>(reason@),
        PassOutcome::Done@ == PassOutcomeView::Done,
        PassOutcome::SeekFailed(reason)@ == PassOutcomeView::SeekFailed(reason@),
        PassOutcome::WriteFailed(reason)@ == PassOutcomeView::WriteFailed(reason@),
        PassOutcome::SyncFailed(reason)@ == PassOutcomeView::SyncFailed(reason@),
{
}

} // verus!
