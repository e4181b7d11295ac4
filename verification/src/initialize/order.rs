//! The freedom of the command line: neither the order of its parts nor the spelling of an option
//! matters.
use crate::initialize::arguments::{identifier, parsed, ArgsView, OutcomeView, PartialView};
use vstd::prelude::*;
use vstd::set_lib::{lemma_int_range, lemma_subset_equality, set_int_range};

verus! {

/// What one part of a command line sets.
pub enum Setting {
    /// The file to write.
    Path(Seq<char>),
    /// A file that exists is replaced.
    Force,
    /// The material identifier that a text spells.
    Identifier(Seq<char>),
    /// The service.
    Service(Seq<char>),
    /// The key to wrap.
    Dek(Seq<char>),
}

/// A part of a command line: a setting, in the long or the short spelling of its option.
pub struct Part {
    pub setting: Setting,
    pub long: bool,
}

impl Part {
    /// The option of the part; a path has none.
    pub open spec fn option(self) -> Seq<char> {
        match self.setting {
            Setting::Path(path) => path,
            Setting::Force => if self.long {
                "--force"@
            } else {
                "-f"@
            },
            Setting::Identifier(_) => if self.long {
                "--material-identifier"@
            } else {
                "-mi"@
            },
            Setting::Service(_) => if self.long {
                "--service-name"@
            } else {
                "-sn"@
            },
            Setting::Dek(_) => if self.long {
                "--dek"@
            } else {
                "-d"@
            },
        }
    }

    /// The words of the part.
    pub open spec fn words(self) -> Seq<Seq<char>> {
        match self.setting {
            Setting::Path(path) => seq![path],
            Setting::Force => seq![self.option()],
            Setting::Identifier(text) => seq![self.option(), text],
            Setting::Service(text) => seq![self.option(), text],
            Setting::Dek(text) => seq![self.option(), text],
        }
    }

    /// A path does not look like an option.
    pub open spec fn well_formed(self) -> bool {
        self.setting matches Setting::Path(path) ==> !(path.len() > 0 && path[0] == '-')
    }
}

/// The words of all parts, one after the other.
pub open spec fn all_words(parts: Seq<Part>) -> Seq<Seq<char>>
    decreases parts.len(),
{
    if parts.len() == 0 {
        seq![]
    } else {
        parts[0].words() + all_words(parts.drop_first())
    }
}

/// What is asked for by the parts after `partial`, or why they are refused.
spec fn read(parts: Seq<Part>, partial: PartialView) -> Result<OutcomeView, Seq<char>>
    decreases parts.len(),
{
    if parts.len() == 0 {
        partial.finished()
    } else {
        let rest = parts.drop_first();
        match parts[0].setting {
            Setting::Path(path) => if partial.key_file_path is None {
                read(rest, PartialView { key_file_path: Some(path), ..partial })
            } else {
                Err("unrecognized argument: "@ + path)
            },
            Setting::Force => read(rest, PartialView { force: true, ..partial }),
            Setting::Identifier(text) => match identifier(text) {
                Ok(n) => read(rest, PartialView { material_identifier: Some(n), ..partial }),
                Err(message) => Err(message),
            },
            Setting::Service(text) => if text.len() == 0 {
                Err("--service-name must not be empty"@)
            } else {
                read(rest, PartialView { service_name: Some(text), ..partial })
            },
            Setting::Dek(text) => read(rest, PartialView { dek_base64: Some(text), ..partial }),
        }
    }
}

/// The options are all different, and none is a path.
proof fn options_are_told_apart(part: Part)
    requires
        part.well_formed(),
    ensures
        part.option() != "--help"@ && part.option() != "-h"@,
        part.setting is Force <==> part.option() == "--force"@ || part.option() == "-f"@,
        part.setting is Identifier <==> part.option() == "--material-identifier"@
            || part.option() == "-mi"@,
        part.setting is Service <==> part.option() == "--service-name"@ || part.option() == "-sn"@,
        part.setting is Dek <==> part.option() == "--dek"@ || part.option() == "-d"@,
{
    reveal_strlit("--help");
    reveal_strlit("-h");
    reveal_strlit("--force");
    reveal_strlit("-f");
    reveal_strlit("--material-identifier");
    reveal_strlit("-mi");
    reveal_strlit("--service-name");
    reveal_strlit("-sn");
    reveal_strlit("--dek");
    reveal_strlit("-d");
    assert("--help"@.len() == 6 && "--force"@.len() == 7 && "--dek"@.len() == 5);
    assert("--material-identifier"@.len() == 21 && "--service-name"@.len() == 14);
    assert("-h"@.len() == 2 && "-f"@.len() == 2 && "-d"@.len() == 2);
    assert("-mi"@.len() == 3 && "-sn"@.len() == 3);
    assert("--help"@[0] == '-' && "-h"@[0] == '-' && "--force"@[0] == '-' && "-f"@[0] == '-');
    assert("--material-identifier"@[0] == '-' && "-mi"@[0] == '-');
    assert("--service-name"@[0] == '-' && "-sn"@[0] == '-');
    assert("--dek"@[0] == '-' && "-d"@[0] == '-');
    assert("-h"@[1] == 'h' && "-f"@[1] == 'f' && "-d"@[1] == 'd');
    assert("-mi"@[1] == 'm' && "-sn"@[1] == 's');
}

/// Reading words is reading parts.
proof fn words_are_read_by_parts(before: Seq<Seq<char>>, parts: Seq<Part>, partial: PartialView)
    requires
        forall|i: int| 0 <= i < parts.len() ==> (#[trigger] parts[i]).well_formed(),
    ensures
        parsed(before + all_words(parts), before.len() as int, partial) == read(parts, partial),
    decreases parts.len(),
{
    let words = before + all_words(parts);
    if parts.len() == 0 {
        assert(words =~= before);
    } else {
        let part = parts[0];
        let rest = parts.drop_first();
        let next = before + part.words();
        assert(part.well_formed());
        options_are_told_apart(part);
        assert(words =~= next + all_words(rest));
        assert(words[before.len() as int] == part.option());
        assert(part.words().len() == 2 ==> words[before.len() as int + 1] == part.words()[1]);
        assert(forall|i: int| 0 <= i < rest.len() ==> #[trigger] rest[i] == parts[i + 1]);
        match part.setting {
            Setting::Path(path) => {
                words_are_read_by_parts(
                    next,
                    rest,
                    PartialView { key_file_path: Some(path), ..partial },
                );
            },
            Setting::Force => {
                words_are_read_by_parts(next, rest, PartialView { force: true, ..partial });
            },
            Setting::Identifier(text) => {
                if identifier(text) is Ok {
                    let n = identifier(text)->Ok_0;
                    words_are_read_by_parts(
                        next,
                        rest,
                        PartialView { material_identifier: Some(n), ..partial },
                    );
                }
            },
            Setting::Service(text) => {
                words_are_read_by_parts(
                    next,
                    rest,
                    PartialView { service_name: Some(text), ..partial },
                );
            },
            Setting::Dek(text) => {
                words_are_read_by_parts(
                    next,
                    rest,
                    PartialView { dek_base64: Some(text), ..partial },
                );
            },
        }
    }
}

/// Whether a setting is among the parts.
pub open spec fn sets(parts: Seq<Part>, setting: Setting) -> bool {
    exists|i: int| 0 <= i < parts.len() && (#[trigger] parts[i]).setting == setting
}

/// Whether two settings are of one kind, of which a command line holds one.
pub open spec fn compete(a: Setting, b: Setting) -> bool {
    match a {
        Setting::Path(_) => b is Path,
        Setting::Force => false,
        Setting::Identifier(_) => b is Identifier,
        Setting::Service(_) => b is Service,
        Setting::Dek(_) => b is Dek,
    }
}

/// Whether path, identifier, service and key are each set once at most.
pub open spec fn set_once(parts: Seq<Part>) -> bool {
    forall|i: int, j: int|
        0 <= i < j < parts.len() ==> !compete(
            (#[trigger] parts[i]).setting,
            (#[trigger] parts[j]).setting,
        )
}

/// Whether a setting after `partial` is acceptable, and is that of the arguments.
spec fn agrees(setting: Setting, partial: PartialView, args: ArgsView) -> bool {
    match setting {
        Setting::Path(path) => args.key_file_path == path && partial.key_file_path is None,
        Setting::Force => args.force,
        Setting::Identifier(text) => identifier(text) == Ok::<u32, Seq<char>>(
            args.material_identifier,
        ),
        Setting::Service(text) => args.service_name == text && text.len() > 0,
        Setting::Dek(text) => args.dek_base64 == text,
    }
}

/// Whether the parts after `partial` amount to the arguments.
spec fn amount_to(parts: Seq<Part>, partial: PartialView, args: ArgsView) -> bool {
    &&& forall|i: int| 0 <= i < parts.len() ==> agrees((#[trigger] parts[i]).setting, partial, args)
    &&& partial.key_file_path == Some(args.key_file_path) || sets(
        parts,
        Setting::Path(args.key_file_path),
    )
    &&& partial.material_identifier == Some(args.material_identifier) || exists|i: int|
        0 <= i < parts.len() && (#[trigger] parts[i]).setting is Identifier
    &&& partial.service_name == Some(args.service_name) || sets(
        parts,
        Setting::Service(args.service_name),
    )
    &&& partial.dek_base64 == Some(args.dek_base64) || sets(parts, Setting::Dek(args.dek_base64))
    &&& args.force ==> partial.force || sets(parts, Setting::Force)
    &&& partial.force ==> args.force
}

/// What has been read after one more part.
spec fn with_part(partial: PartialView, setting: Setting) -> PartialView {
    match setting {
        Setting::Path(path) => PartialView { key_file_path: Some(path), ..partial },
        Setting::Force => PartialView { force: true, ..partial },
        Setting::Identifier(text) => PartialView {
            material_identifier: Some(identifier(text)->Ok_0),
            ..partial
        },
        Setting::Service(text) => PartialView { service_name: Some(text), ..partial },
        Setting::Dek(text) => PartialView { dek_base64: Some(text), ..partial },
    }
}

/// Whether identifier, service and key are each set once at most.
pub open spec fn values_are_set_once(parts: Seq<Part>) -> bool {
    forall|i: int, j: int|
        0 <= i < j < parts.len() && (#[trigger] parts[i]).setting !is Path ==> !compete(
            parts[i].setting,
            (#[trigger] parts[j]).setting,
        )
}

/// Accepted parts amount to the arguments that are read from them, and set each of them once.
proof fn accepted_parts_amount(parts: Seq<Part>, partial: PartialView, args: ArgsView)
    requires
        values_are_set_once(parts),
        read(parts, partial) == Ok::<OutcomeView, Seq<char>>(OutcomeView::Run(args)),
    ensures
        amount_to(parts, partial, args),
        set_once(parts),
    decreases parts.len(),
{
    if parts.len() > 0 {
        let setting = parts[0].setting;
        let rest = parts.drop_first();
        let next = with_part(partial, setting);
        assert(forall|i: int| 0 <= i < rest.len() ==> #[trigger] rest[i] == parts[i + 1]);
        assert(forall|i: int| 1 <= i < parts.len() ==> #[trigger] parts[i] == rest[i - 1]);
        assert(read(parts, partial) == read(rest, next));
        accepted_parts_amount(rest, next, args);
        assert forall|i: int, j: int| 0 <= i < j < parts.len() implies !compete(
            (#[trigger] parts[i]).setting,
            (#[trigger] parts[j]).setting,
        ) by {
            assert(parts[j] == rest[j - 1]);
            if i > 0 {
                assert(parts[i] == rest[i - 1]);
            }
        }
        more_parts_set_more(parts);
        assert(sets(parts, setting));
    }
}

/// Parts that amount to arguments are accepted, and give these arguments.
proof fn amounting_parts_are_accepted(parts: Seq<Part>, partial: PartialView, args: ArgsView)
    requires
        set_once(parts),
        amount_to(parts, partial, args),
    ensures
        read(parts, partial) == Ok::<OutcomeView, Seq<char>>(OutcomeView::Run(args)),
    decreases parts.len(),
{
    if parts.len() > 0 {
        let setting = parts[0].setting;
        let rest = parts.drop_first();
        let next = with_part(partial, setting);
        assert(forall|i: int| 0 <= i < rest.len() ==> #[trigger] rest[i] == parts[i + 1]);
        assert(forall|i: int| 1 <= i < parts.len() ==> #[trigger] parts[i] == rest[i - 1]);
        assert forall|i: int, j: int| 0 <= i < j < rest.len() implies !compete(
            (#[trigger] rest[i]).setting,
            (#[trigger] rest[j]).setting,
        ) by {
            assert(rest[i] == parts[i + 1] && rest[j] == parts[j + 1]);
        }
        assert forall|i: int| 0 <= i < rest.len() implies !compete(
            setting,
            (#[trigger] rest[i]).setting,
        ) by {
            assert(rest[i] == parts[i + 1]);
        }
        more_parts_set_more(parts);
        amounting_parts_are_accepted(rest, next, args);
    }
}

/// The parts set what the first of them and the others set.
proof fn more_parts_set_more(parts: Seq<Part>)
    requires
        parts.len() > 0,
    ensures
        forall|setting: Setting| #[trigger]
            sets(parts, setting) <==> parts[0].setting == setting || sets(
                parts.drop_first(),
                setting,
            ),
{
    let rest = parts.drop_first();
    assert forall|setting: Setting| #[trigger] sets(parts, setting) implies parts[0].setting
        == setting || sets(rest, setting) by {
        let i = choose|i: int| 0 <= i < parts.len() && (#[trigger] parts[i]).setting == setting;
        if i > 0 {
            assert(rest[i - 1].setting == setting);
        }
    }
    assert forall|setting: Setting| parts[0].setting == setting || sets(
        rest,
        setting,
    ) implies #[trigger] sets(parts, setting) by {
        if sets(rest, setting) {
            let i = choose|i: int| 0 <= i < rest.len() && (#[trigger] rest[i]).setting == setting;
            assert(parts[i + 1].setting == setting);
        }
    }
}

/// Whether `b` holds the settings of `a` in another order and in any spelling; `places` tells where
/// in `a` each stands.
pub open spec fn is_rearrangement(a: Seq<Part>, b: Seq<Part>, places: Seq<int>) -> bool {
    &&& a.len() == b.len() == places.len()
    &&& places.no_duplicates()
    &&& forall|i: int|
        0 <= i < b.len() ==> 0 <= #[trigger] places[i] < a.len() && b[i].setting
            == a[places[i]].setting
}

/// Places without duplicates leave no place out.
proof fn every_place_is_taken(places: Seq<int>, k: int)
    requires
        places.no_duplicates(),
        forall|i: int| 0 <= i < places.len() ==> 0 <= #[trigger] places[i] < places.len(),
        0 <= k < places.len(),
    ensures
        places.contains(k),
{
    let n = places.len() as int;
    let taken = places.to_set();
    lemma_int_range(0, n);
    places.unique_seq_to_set();
    assert forall|x: int| #[trigger] taken.contains(x) implies set_int_range(0, n).contains(x) by {
        let i = choose|i: int| 0 <= i < places.len() && places[i] == x;
        assert(0 <= places[i] < n);
    }
    lemma_subset_equality(taken, set_int_range(0, n));
    assert(taken.contains(k));
}

/// What is set by parts whose settings all occur among others is set by those.
proof fn rearranged_parts_set_the_same(a: Seq<Part>, b: Seq<Part>, setting: Setting)
    requires
        forall|k: int| 0 <= k < a.len() ==> sets(b, (#[trigger] a[k]).setting),
    ensures
        sets(a, setting) ==> sets(b, setting),
{
}

/// The order of the parts of a command line does not matter, nor whether an option is spelled long
/// or short: where identifier, service and key are each set once, every rearrangement of a command
/// line that asks for a run asks for the same run.
pub proof fn order_and_spelling_do_not_matter(
    program: Seq<char>,
    a: Seq<Part>,
    other_program: Seq<char>,
    b: Seq<Part>,
    places: Seq<int>,
)
    requires
        forall|i: int| 0 <= i < a.len() ==> (#[trigger] a[i]).well_formed(),
        values_are_set_once(a),
        parsed(seq![program] + all_words(a), 1, PartialView::empty()) matches Ok(
            OutcomeView::Run(_),
        ),
        is_rearrangement(a, b, places),
    ensures
        parsed(seq![other_program] + all_words(b), 1, PartialView::empty()) == parsed(
            seq![program] + all_words(a),
            1,
            PartialView::empty(),
        ),
{
    let empty = PartialView::empty();
    words_are_read_by_parts(seq![program], a, empty);
    let args = read(a, empty)->Ok_0->Run_0;
    accepted_parts_amount(a, empty, args);
    assert forall|i: int| 0 <= i < b.len() implies (#[trigger] b[i]).well_formed() by {
        assert(a[places[i]].well_formed());
    }
    assert forall|i: int, j: int| 0 <= i < j < b.len() implies !compete(
        (#[trigger] b[i]).setting,
        (#[trigger] b[j]).setting,
    ) by {
        let (p, q) = (places[i], places[j]);
        assert(p != q);
        if p < q {
            assert(!compete(a[p].setting, a[q].setting));
        } else {
            assert(!compete(a[q].setting, a[p].setting));
        }
    }
    assert forall|k: int| 0 <= k < a.len() implies sets(b, (#[trigger] a[k]).setting) by {
        every_place_is_taken(places, k);
        let i = choose|i: int| 0 <= i < places.len() && places[i] == k;
        assert(b[i].setting == a[k].setting);
    }
    assert(amount_to(b, empty, args)) by {
        assert forall|i: int| 0 <= i < b.len() implies agrees(
            (#[trigger] b[i]).setting,
            empty,
            args,
        ) by {
            assert(agrees(a[places[i]].setting, empty, args));
        }
        rearranged_parts_set_the_same(a, b, Setting::Path(args.key_file_path));
        rearranged_parts_set_the_same(a, b, Setting::Service(args.service_name));
        rearranged_parts_set_the_same(a, b, Setting::Dek(args.dek_base64));
        rearranged_parts_set_the_same(a, b, Setting::Force);
        let k = choose|k: int| 0 <= k < a.len() && (#[trigger] a[k]).setting is Identifier;
        assert(sets(b, a[k].setting));
        let i = choose|i: int| 0 <= i < b.len() && (#[trigger] b[i]).setting == a[k].setting;
        assert(b[i].setting is Identifier);
    }
    amounting_parts_are_accepted(b, empty, args);
    words_are_read_by_parts(seq![other_program], b, empty);
}

} // verus!
