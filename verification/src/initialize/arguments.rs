//! The command line.
use crate::text::{
    concat2, concat3, decimal, decimal_text, optional_text, parse_number, parsed_number, same_text,
    starts_with_char, texts,
};
use vstd::prelude::*;

verus! {

/// The smallest material identifier.
pub const MATERIAL_IDENTIFIER_MIN: u32 = 1;

/// The largest material identifier.
pub const MATERIAL_IDENTIFIER_MAX: u32 = 256;

/// The arguments of a run.
#[derive(Debug)]
pub struct Args {
    /// The file to write.
    pub key_file_path: String,
    /// Which of the service's keys to wrap under.
    pub material_identifier: u32,
    /// The service.
    pub service_name: String,
    /// The key to wrap, in base64.
    pub dek_base64: String,
    /// Whether a file that exists is replaced.
    pub force: bool,
}

/// What the command line asks for.
#[derive(Debug)]
pub enum ParseOutcome {
    Run(Args),
    Help,
}

/// An [`Args`] with its texts as sequences.
pub struct ArgsView {
    pub key_file_path: Seq<char>,
    pub material_identifier: u32,
    pub service_name: Seq<char>,
    pub dek_base64: Seq<char>,
    pub force: bool,
}

/// A [`ParseOutcome`] with its texts as sequences.
pub enum OutcomeView {
    Run(ArgsView),
    Help,
}

impl View for Args {
    type V = ArgsView;

    open spec fn view(&self) -> ArgsView {
        ArgsView {
            key_file_path: self.key_file_path@,
            material_identifier: self.material_identifier,
            service_name: self.service_name@,
            dek_base64: self.dek_base64@,
            force: self.force,
        }
    }
}

impl View for ParseOutcome {
    type V = OutcomeView;

    open spec fn view(&self) -> OutcomeView {
        match self {
            ParseOutcome::Run(args) => OutcomeView::Run(args@),
            ParseOutcome::Help => OutcomeView::Help,
        }
    }
}

/// A result whose error is a message, by its views.
pub open spec fn message_view<T: View>(r: Result<T, String>) -> Result<T::V, Seq<char>> {
    match r {
        Ok(value) => Ok(value@),
        Err(message) => Err(message@),
    }
}

/// What has been read of the command line so far.
struct Partial {
    key_file_path: Option<String>,
    material_identifier: Option<u32>,
    service_name: Option<String>,
    dek_base64: Option<String>,
    force: bool,
}

/// What has been read of the command line so far, with its texts as sequences.
pub struct PartialView {
    pub key_file_path: Option<Seq<char>>,
    pub material_identifier: Option<u32>,
    pub service_name: Option<Seq<char>>,
    pub dek_base64: Option<Seq<char>>,
    pub force: bool,
}

impl View for Partial {
    type V = PartialView;

    closed spec fn view(&self) -> PartialView {
        PartialView {
            key_file_path: optional_text(self.key_file_path),
            material_identifier: self.material_identifier,
            service_name: optional_text(self.service_name),
            dek_base64: optional_text(self.dek_base64),
            force: self.force,
        }
    }
}

impl PartialView {
    /// Nothing has been read.
    pub open spec fn empty() -> PartialView {
        PartialView {
            key_file_path: None,
            material_identifier: None,
            service_name: None,
            dek_base64: None,
            force: false,
        }
    }

    /// What the command line asks for once it has been read to its end.
    pub open spec fn finished(self) -> Result<OutcomeView, Seq<char>> {
        if self.key_file_path is None {
            Err("missing required <key-file-path>"@)
        } else if self.material_identifier is None {
            Err("missing required --material-identifier|-mi"@)
        } else if self.service_name is None {
            Err("missing required --service-name|-sn"@)
        } else if self.dek_base64 is None {
            Err("missing required --dek|-d"@)
        } else {
            Ok(
                OutcomeView::Run(
                    ArgsView {
                        key_file_path: self.key_file_path->0,
                        material_identifier: self.material_identifier->0,
                        service_name: self.service_name->0,
                        dek_base64: self.dek_base64->0,
                        force: self.force,
                    },
                ),
            )
        }
    }
}

/// The material identifier that a text spells, or why it spells none.
pub open spec fn identifier(text: Seq<char>) -> Result<u32, Seq<char>> {
    match parsed_number(text, u32::MAX as nat) {
        None => Err("--material-identifier must be an integer, got \""@ + text + "\""@),
        Some(n) => if MATERIAL_IDENTIFIER_MIN <= n <= MATERIAL_IDENTIFIER_MAX {
            Ok(n as u32)
        } else {
            Err("--material-identifier must be between 1 and 256, got "@ + decimal(n))
        },
    }
}

/// What a command line asks for, read from word `i` on after `partial`, or why it is refused.
pub open spec fn parsed(words: Seq<Seq<char>>, i: int, partial: PartialView) -> Result<
    OutcomeView,
    Seq<char>,
>
    decreases words.len() - i,
{
    if i >= words.len() {
        partial.finished()
    } else {
        let word = words[i];
        if word == "--help"@ || word == "-h"@ {
            Ok(OutcomeView::Help)
        } else if word == "--force"@ || word == "-f"@ {
            parsed(words, i + 1, PartialView { force: true, ..partial })
        } else if word == "--material-identifier"@ || word == "-mi"@ {
            if i + 1 >= words.len() {
                Err(word + " requires a value"@)
            } else {
                match identifier(words[i + 1]) {
                    Ok(n) => parsed(
                        words,
                        i + 2,
                        PartialView { material_identifier: Some(n), ..partial },
                    ),
                    Err(message) => Err(message),
                }
            }
        } else if word == "--service-name"@ || word == "-sn"@ {
            if i + 1 >= words.len() {
                Err(word + " requires a value"@)
            } else if words[i + 1].len() == 0 {
                Err("--service-name must not be empty"@)
            } else {
                parsed(
                    words,
                    i + 2,
                    PartialView { service_name: Some(words[i + 1]), ..partial },
                )
            }
        } else if word == "--dek"@ || word == "-d"@ {
            if i + 1 >= words.len() {
                Err(word + " requires a value"@)
            } else {
                parsed(words, i + 2, PartialView { dek_base64: Some(words[i + 1]), ..partial })
            }
        } else if partial.key_file_path is None && !(word.len() > 0 && word[0] == '-') {
            parsed(words, i + 1, PartialView { key_file_path: Some(word), ..partial })
        } else {
            Err("unrecognized argument: "@ + word)
        }
    }
}

/// Reads a material identifier.
fn read_identifier(text: &str) -> (r: Result<u32, String>)
    ensures
        match r {
            Ok(n) => identifier(text@) == Ok::<u32, Seq<char>>(n),
            Err(message) => identifier(text@) == Err::<u32, Seq<char>>(message@),
        },
{
    match parse_number(text, u32::MAX as u64) {
        None => Err(
            concat3("--material-identifier must be an integer, got \"", text, "\""),
        ),
        Some(n) => if MATERIAL_IDENTIFIER_MIN as u64 <= n && n <= MATERIAL_IDENTIFIER_MAX as u64 {
            Ok(n as u32)
        } else {
            let digits = decimal_text(n);
            Err(
                concat2(
                    "--material-identifier must be between 1 and 256, got ",
                    digits.as_str(),
                ),
            )
        },
    }
}

/// Reads the command line; the first word is the program's name.
pub fn parse_args(args: Vec<String>) -> (r: Result<ParseOutcome, String>)
    ensures
        message_view(r) == parsed(texts(args@), 1, PartialView::empty()),
{
    let ghost words = texts(args@);
    let mut partial = Partial {
        key_file_path: None,
        material_identifier: None,
        service_name: None,
        dek_base64: None,
        force: false,
    };
    let n: usize = args.len();
    let mut i: usize = 1;
    while i < n
        invariant
            1 <= i,
            n == args@.len(),
            words == texts(args@),
            i <= n || n == 0,
            parsed(words, 1, PartialView::empty()) == parsed(words, i as int, partial@),
        decreases n - i,
    {
        let word = args[i].as_str();
        assert(words[i as int] == word@);
        if same_text(word, "--help") || same_text(word, "-h") {
            return Ok(ParseOutcome::Help);
        }
        if same_text(word, "--force") || same_text(word, "-f") {
            partial.force = true;
            i += 1;
            continue;
        }
        let is_identifier = same_text(word, "--material-identifier") || same_text(word, "-mi");
        let is_service = same_text(word, "--service-name") || same_text(word, "-sn");
        let is_dek = same_text(word, "--dek") || same_text(word, "-d");
        if is_identifier || is_service || is_dek {
            if n - i < 2 {
                return Err(concat2(word, " requires a value"));
            }
            let value = args[i + 1].as_str();
            assert(words[i + 1] == value@);
            if is_identifier {
                match read_identifier(value) {
                    Ok(id) => {
                        partial.material_identifier = Some(id);
                    },
                    Err(message) => return Err(message),
                }
            } else if is_service {
                if value.is_empty() {
                    return Err(String::from_str("--service-name must not be empty"));
                }
                partial.service_name = Some(String::from_str(value));
            } else {
                partial.dek_base64 = Some(String::from_str(value));
            }
            i += 2;
            continue;
        }
        if partial.key_file_path.is_none() && !starts_with_char(word, '-') {
            partial.key_file_path = Some(String::from_str(word));
            i += 1;
        } else {
            return Err(concat2("unrecognized argument: ", word));
        }
    }
    finish(partial)
}

/// What the command line asks for once it has been read to its end.
fn finish(partial: Partial) -> (r: Result<ParseOutcome, String>)
    ensures
        message_view(r) == partial@.finished(),
{
    let key_file_path = match partial.key_file_path {
        Some(path) => path,
        None => return Err(String::from_str("missing required <key-file-path>")),
    };
    let material_identifier: u32 = match partial.material_identifier {
        Some(id) => id,
        None => return Err(String::from_str("missing required --material-identifier|-mi")),
    };
    let service_name = match partial.service_name {
        Some(name) => name,
        None => return Err(String::from_str("missing required --service-name|-sn")),
    };
    let dek_base64 = match partial.dek_base64 {
        Some(text) => text,
        None => return Err(String::from_str("missing required --dek|-d")),
    };
    Ok(
        ParseOutcome::Run(
            Args {
                key_file_path,
                material_identifier,
                service_name,
                dek_base64,
                force: partial.force,
            },
        ),
    )
}

/// How the command is used.
pub fn usage() -> (text: &'static str)
    ensures
        text@
            == "Usage: hkdfguard-v1-initialize <key-file-path> --material-identifier|-mi <1-256> --service-name|-sn <name> --dek|-d <base64> [--force|-f]"@,
{
    "Usage: hkdfguard-v1-initialize <key-file-path> --material-identifier|-mi <1-256> --service-name|-sn <name> --dek|-d <base64> [--force|-f]"
}

/// Every run that a command line asks for has a material identifier from 1 to 256 and a service
/// name that is not empty.
pub proof fn accepted_arguments_are_in_range(words: Seq<Seq<char>>)
    ensures
        parsed(words, 1, PartialView::empty()) matches Ok(OutcomeView::Run(args)) ==> {
            &&& MATERIAL_IDENTIFIER_MIN <= args.material_identifier <= MATERIAL_IDENTIFIER_MAX
            &&& args.service_name.len() > 0
        },
{
    range_is_kept(words, 1, PartialView::empty());
}

/// What has been read stays in range to the end.
proof fn range_is_kept(words: Seq<Seq<char>>, i: int, partial: PartialView)
    requires
        partial.material_identifier matches Some(n) ==> MATERIAL_IDENTIFIER_MIN <= n
            <= MATERIAL_IDENTIFIER_MAX,
        partial.service_name matches Some(name) ==> name.len() > 0,
    ensures
        parsed(words, i, partial) matches Ok(OutcomeView::Run(args)) ==> {
            &&& MATERIAL_IDENTIFIER_MIN <= args.material_identifier <= MATERIAL_IDENTIFIER_MAX
            &&& args.service_name.len() > 0
        },
    decreases words.len() - i,
{
    if i < words.len() {
        let word = words[i];
        range_is_kept(words, i + 1, PartialView { force: true, ..partial });
        range_is_kept(words, i + 1, PartialView { key_file_path: Some(word), ..partial });
        if i + 1 < words.len() {
            let value = words[i + 1];
            if identifier(value) is Ok {
                range_is_kept(
                    words,
                    i + 2,
                    PartialView { material_identifier: Some(identifier(value)->Ok_0), ..partial },
                );
            }
            if value.len() > 0 {
                range_is_kept(words, i + 2, PartialView { service_name: Some(value), ..partial });
            }
            range_is_kept(words, i + 2, PartialView { dek_base64: Some(value), ..partial });
        }
    }
}

} // verus!
