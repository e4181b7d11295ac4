//! The overwriting of a file before it is removed.
//!
//! Four times over, the file is filled with zeros and then with fresh random bytes, each pass
//! made durable before the next; then it is removed. On file systems that write elsewhere than
//! in place the old contents may survive. Touching the file is the caller's part: a
//! [`DeleteStep`] says what to do next, and takes the answer.
use crate::files::change_view;
use crate::primitives::memory::{fill_random, scrub, zeros};
use crate::text::concat4;
use vstd::prelude::*;

verus! {

/// How often the file is filled: half the passes with zeros, half with random bytes.
pub const DELETE_PASSES: usize = 8;

/// What to do next for a deletion.
pub enum DeleteStep {
    /// Find out how long the file is.
    Stat(StatQuery),
    /// Open the file for writing.
    Open(OpenQuery),
    /// Go to the start of the file, fill it, and make that durable.
    Pass(PassQuery),
    /// Close the file and remove it.
    Remove(RemoveQuery),
    /// The file is gone.
    Done,
    /// The deletion has failed.
    Failed(String),
}

/// The length of the file is to be found out.
pub struct StatQuery {
    path: String,
}

/// The file is to be opened.
pub struct OpenQuery {
    path: String,
    len: usize,
}

/// The file is to be filled.
pub struct PassQuery {
    path: String,
    buf: Vec<u8>,
    pass: usize,
}

/// The file is to be removed.
pub struct RemoveQuery {
    path: String,
}

/// How a pass went.
pub enum PassOutcome {
    Done,
    SeekFailed(String),
    WriteFailed(String),
    SyncFailed(String),
}

/// A [`PassOutcome`] with its reason as a sequence.
pub enum PassOutcomeView {
    Done,
    SeekFailed(Seq<char>),
    WriteFailed(Seq<char>),
    SyncFailed(Seq<char>),
}

/// A [`DeleteStep`] by its contents: the path, the length of the file, what to fill it with and the
/// number of the pass.
pub enum DeleteView {
    Stat(Seq<char>),
    Open(Seq<char>, nat),
    Pass(Seq<char>, Seq<u8>, nat),
    Remove(Seq<char>),
    Done,
    Failed(Seq<char>),
}

impl View for PassOutcome {
    type V = PassOutcomeView;

    open spec fn view(&self) -> PassOutcomeView {
        match self {
            PassOutcome::Done => PassOutcomeView::Done,
            PassOutcome::SeekFailed(reason) => PassOutcomeView::SeekFailed(reason@),
            PassOutcome::WriteFailed(reason) => PassOutcomeView::WriteFailed(reason@),
            PassOutcome::SyncFailed(reason) => PassOutcomeView::SyncFailed(reason@),
        }
    }
}

impl View for DeleteStep {
    type V = DeleteView;

    open spec fn view(&self) -> DeleteView {
        match self {
            DeleteStep::Stat(query) => DeleteView::Stat(query.path()),
            DeleteStep::Open(query) => DeleteView::Open(query.path(), query.len()),
            DeleteStep::Pass(query) => DeleteView::Pass(query.path(), query.bytes(), query.pass()),
            DeleteStep::Remove(query) => DeleteView::Remove(query.path()),
            DeleteStep::Done => DeleteView::Done,
            DeleteStep::Failed(message) => DeleteView::Failed(message@),
        }
    }
}

/// The length of the file, or the reason that it is not known.
pub open spec fn length_view(r: Result<usize, String>) -> Result<nat, Seq<char>> {
    match r {
        Ok(len) => Ok(len as nat),
        Err(reason) => Err(reason@),
    }
}

/// The step after the length was asked for.
pub open spec fn after_stat(path: Seq<char>, answer: Result<nat, Seq<char>>) -> DeleteView {
    match answer {
        Ok(len) => DeleteView::Open(path, len),
        Err(reason) => DeleteView::Failed("failed to stat "@ + path + ": "@ + reason),
    }
}

/// The step after the file was opened.
pub open spec fn after_open(
    path: Seq<char>,
    len: nat,
    answer: Result<(), Seq<char>>,
) -> DeleteView {
    match answer {
        Ok(_) => DeleteView::Pass(path, zeros(len), 0),
        Err(reason) => DeleteView::Failed(
            "failed to open "@ + path + " for secure delete: "@ + reason,
        ),
    }
}

/// What a pass fills a file of a given length with: zeros in every other pass, the first among
/// them, and the bytes that were drawn for it in the others.
pub open spec fn pass_bytes(len: nat, pass: nat, random: Seq<u8>) -> Seq<u8> {
    if pass % 2 == 0 {
        zeros(len)
    } else {
        random
    }
}

/// The step after a pass; `random` is what was drawn for the next one.
pub open spec fn after_pass(
    path: Seq<char>,
    len: nat,
    pass: nat,
    answer: PassOutcomeView,
    random: Seq<u8>,
) -> DeleteView {
    match answer {
        PassOutcomeView::Done => if pass + 1 < DELETE_PASSES {
            DeleteView::Pass(path, pass_bytes(len, pass + 1, random), pass + 1)
        } else {
            DeleteView::Remove(path)
        },
        PassOutcomeView::SeekFailed(reason) => DeleteView::Failed(
            "secure delete: failed to seek "@ + path + ": "@ + reason,
        ),
        PassOutcomeView::WriteFailed(reason) => DeleteView::Failed(
            "secure delete: failed to write "@ + path + ": "@ + reason,
        ),
        PassOutcomeView::SyncFailed(reason) => DeleteView::Failed(
            "secure delete: failed to sync "@ + path + ": "@ + reason,
        ),
    }
}

/// The step after the file was removed.
pub open spec fn after_remove(path: Seq<char>, answer: Result<(), Seq<char>>) -> DeleteView {
    match answer {
        Ok(_) => DeleteView::Done,
        Err(reason) => DeleteView::Failed(
            "failed to remove "@ + path + " after secure delete: "@ + reason,
        ),
    }
}

/// Starts to delete a file.
pub fn secure_delete(path: &str) -> (step: DeleteStep)
    ensures
        step@ == DeleteView::Stat(path@),
{
    DeleteStep::Stat(StatQuery { path: String::from_str(path) })
}

impl StatQuery {
    /// The file.
    pub closed spec fn path(&self) -> Seq<char> {
        self.path@
    }

    /// The file to look at.
    pub fn file(&self) -> (path: &str)
        ensures
            path@ == self.path(),
    {
        self.path.as_str()
    }

    /// Goes on with the file's length, or with the reason that it is not known.
    pub fn answered(self, answer: Result<usize, String>) -> (step: DeleteStep)
        ensures
            step@ == after_stat(self.path(), length_view(answer)),
    {
        match answer {
            Ok(len) => DeleteStep::Open(OpenQuery { path: self.path, len }),
            Err(reason) => DeleteStep::Failed(
                concat4("failed to stat ", self.path.as_str(), ": ", reason.as_str()),
            ),
        }
    }
}

impl OpenQuery {
    /// The file.
    pub closed spec fn path(&self) -> Seq<char> {
        self.path@
    }

    /// The file's length.
    pub closed spec fn len(&self) -> nat {
        self.len as nat
    }

    /// The file to open.
    pub fn file(&self) -> (path: &str)
        ensures
            path@ == self.path(),
    {
        self.path.as_str()
    }

    /// Goes on after the file was opened, or after that failed with a reason.
    pub fn answered(self, answer: Result<(), String>) -> (step: DeleteStep)
        ensures
            step@ == after_open(self.path(), self.len(), change_view(answer)),
    {
        match answer {
            Ok(_) => {
                let buf: Vec<u8> = vec![0u8; self.len];
                assert(buf@ =~= zeros(self.len as nat));
                DeleteStep::Pass(PassQuery { path: self.path, buf, pass: 0 })
            },
            Err(reason) => DeleteStep::Failed(
                concat4(
                    "failed to open ",
                    self.path.as_str(),
                    " for secure delete: ",
                    reason.as_str(),
                ),
            ),
        }
    }
}

impl PassQuery {
    #[verifier::type_invariant]
    closed spec fn valid(self) -> bool {
        &&& self.pass < DELETE_PASSES
        &&& self.pass % 2 == 0 ==> self.buf@ == zeros(self.buf@.len())
    }

    /// The file.
    pub closed spec fn path(&self) -> Seq<char> {
        self.path@
    }

    /// The file's length.
    pub closed spec fn len(&self) -> nat {
        self.buf@.len()
    }

    /// What to fill the file with.
    pub closed spec fn bytes(&self) -> Seq<u8> {
        self.buf@
    }

    /// The number of the pass, counted from zero.
    pub closed spec fn pass(&self) -> nat {
        self.pass as nat
    }

    /// What to fill the file with: as many bytes as it is long, all zero in every other pass, the
    /// first among them.
    pub fn contents(&self) -> (bytes: &[u8])
        ensures
            bytes@ == self.bytes(),
            bytes@.len() == self.len(),
            self.pass() % 2 == 0 ==> bytes@ == zeros(self.len()),
            self.pass() < DELETE_PASSES,
    {
        proof {
            use_type_invariant(self);
        }
        self.buf.as_slice()
    }

    /// Goes on with how the pass went. For a pass that is not to write zeros, fresh random bytes
    /// are drawn.
    pub fn answered(self, answer: PassOutcome) -> (step: DeleteStep)
        ensures
            exists|random: Seq<u8>|
                random.len() == self.len() && step@ == #[trigger] after_pass(
                    self.path(),
                    self.len(),
                    self.pass(),
                    answer@,
                    random,
                ),
    {
        let mut random: Vec<u8> = Vec::new();
        if self.pass % 2 == 0 {
            random = vec![0u8; self.buf.len()];
            fill_random(random.as_mut_slice());
        }
        let ghost drawn = pass_bytes(self.len(), self.pass() + 1, random@);
        assert(pass_bytes(self.len(), self.pass() + 1, drawn) =~= drawn);
        assert(drawn.len() == self.len());
        let step = self.answered_with(answer, random);
        assert(step@ == after_pass(self.path(), self.len(), self.pass(), answer@, drawn));
        step
    }

    /// Goes on with how the pass went. `random` is what to fill the file with next, where the
    /// next pass is not to write zeros.
    pub fn answered_with(self, answer: PassOutcome, random: Vec<u8>) -> (step: DeleteStep)
        requires
            self.pass() % 2 == 0 ==> random@.len() == self.len(),
        ensures
            step@ == after_pass(self.path(), self.len(), self.pass(), answer@, random@),
    {
        proof {
            use_type_invariant(&self);
        }
        let PassQuery { path, buf, pass } = self;
        match answer {
            PassOutcome::Done => {
                if pass + 1 == DELETE_PASSES {
                    return DeleteStep::Remove(RemoveQuery { path });
                }
                if pass % 2 == 0 {
                    return DeleteStep::Pass(PassQuery { path, buf: random, pass: pass + 1 });
                }
                let mut buf = buf;
                scrub(buf.as_mut_slice());
                DeleteStep::Pass(PassQuery { path, buf, pass: pass + 1 })
            },
            PassOutcome::SeekFailed(reason) => DeleteStep::Failed(
                concat4(
                    "secure delete: failed to seek ",
                    path.as_str(),
                    ": ",
                    reason.as_str(),
                ),
            ),
            PassOutcome::WriteFailed(reason) => DeleteStep::Failed(
                concat4(
                    "secure delete: failed to write ",
                    path.as_str(),
                    ": ",
                    reason.as_str(),
                ),
            ),
            PassOutcome::SyncFailed(reason) => DeleteStep::Failed(
                concat4(
                    "secure delete: failed to sync ",
                    path.as_str(),
                    ": ",
                    reason.as_str(),
                ),
            ),
        }
    }
}

impl RemoveQuery {
    /// The file.
    pub closed spec fn path(&self) -> Seq<char> {
        self.path@
    }

    /// The file to remove.
    pub fn file(&self) -> (path: &str)
        ensures
            path@ == self.path(),
    {
        self.path.as_str()
    }

    /// Goes on after the file was removed, or after that failed with a reason.
    pub fn answered(self, answer: Result<(), String>) -> (step: DeleteStep)
        ensures
            step@ == after_remove(self.path(), change_view(answer)),
    {
        match answer {
            Ok(_) => DeleteStep::Done,
            Err(reason) => DeleteStep::Failed(
                concat4(
                    "failed to remove ",
                    self.path.as_str(),
                    " after secure delete: ",
                    reason.as_str(),
                ),
            ),
        }
    }
}

/// What a deletion does to a file: it fills it with these bytes, or removes it.
pub enum Touch {
    Fill(Seq<u8>),
    Remove,
}

/// How many more steps a deletion can take.
pub open spec fn delete_steps_left(step: DeleteView) -> nat {
    match step {
        DeleteView::Stat(_) => 20,
        DeleteView::Open(_, _) => 19,
        DeleteView::Pass(_, _, pass) => if pass < DELETE_PASSES {
            (DELETE_PASSES - pass + 1) as nat
        } else {
            2
        },
        DeleteView::Remove(_) => 1,
        _ => 0,
    }
}

/// What a deletion does to a file of a given length, in order, where nothing fails; `draws` gives
/// the bytes that are drawn for each pass.
pub open spec fn touches(step: DeleteView, len: nat, draws: spec_fn(nat) -> Seq<u8>) -> Seq<Touch>
    decreases delete_steps_left(step),
{
    match step {
        DeleteView::Stat(path) => touches(after_stat(path, Ok(len)), len, draws),
        DeleteView::Open(path, n) => touches(after_open(path, n, Ok(())), len, draws),
        DeleteView::Pass(path, bytes, pass) => seq![Touch::Fill(bytes)] + touches(
            after_pass(path, len, pass, PassOutcomeView::Done, draws(pass + 1)),
            len,
            draws,
        ),
        DeleteView::Remove(path) => seq![Touch::Remove] + touches(
            after_remove(path, Ok(())),
            len,
            draws,
        ),
        _ => seq![],
    }
}

/// A deletion in which nothing fails fills the file eight times, with zeros and with the bytes
/// drawn for the pass in turn, and removes it after that.
pub proof fn deletion_overwrites_eight_times(
    path: Seq<char>,
    len: nat,
    draws: spec_fn(nat) -> Seq<u8>,
)
    ensures
        touches(DeleteView::Stat(path), len, draws) == seq![
            Touch::Fill(zeros(len)),
            Touch::Fill(draws(1)),
            Touch::Fill(zeros(len)),
            Touch::Fill(draws(3)),
            Touch::Fill(zeros(len)),
            Touch::Fill(draws(5)),
            Touch::Fill(zeros(len)),
            Touch::Fill(draws(7)),
            Touch::Remove,
        ],
{
    reveal_with_fuel(touches, 13);
    assert(touches(DeleteView::Stat(path), len, draws) =~= seq![
        Touch::Fill(zeros(len)),
        Touch::Fill(draws(1)),
        Touch::Fill(zeros(len)),
        Touch::Fill(draws(3)),
        Touch::Fill(zeros(len)),
        Touch::Fill(draws(5)),
        Touch::Fill(zeros(len)),
        Touch::Fill(draws(7)),
        Touch::Remove,
    ]);
}

} // verus!
