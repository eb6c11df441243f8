//! The write of a live configuration pair (a credentials file and a
//! configuration file) as one transaction, with rollback and an optional
//! best-effort mirror into a second directory.
//!
//! The transaction is a state machine: each step names one file-system
//! request, the caller performs it and hands the reply back. A model of the
//! file system (`FsModel`) states what a reply may be and what a request does,
//! and the laws at the end of this module hold for every sequence of replies
//! the model allows.
use vstd::prelude::*;

use crate::error::AppError;

verus! {

/// A file-system request made by a live-config write.
#[derive(Debug)]
pub enum FsRequest {
    /// Create this directory and its parents.
    CreateDir(String),
    /// Read this file; a missing file is answered with `FsReply::NotFound`.
    Read(String),
    /// Replace this file's contents atomically: on failure the file is left
    /// as it was.
    Write(String, Vec<u8>),
    /// Delete this file.
    Remove(String),
}

/// The outcome of an `FsRequest`.
#[derive(Debug)]
pub enum FsReply {
    /// A directory creation, write or removal succeeded.
    Succeeded,
    /// The file to read does not exist.
    NotFound,
    /// The bytes of the file that was read.
    Contents(Vec<u8>),
    /// The request failed.
    Failed(AppError),
}

/// What the driver of a live-config write does next.
#[derive(Debug)]
pub enum WriteAction {
    /// Perform this request and hand its outcome to `LiveWrite::step`.
    Request(FsRequest),
    /// The write is over. `result` is the outcome of the primary pair;
    /// `mirror_failure` is a failure of the best-effort mirror and
    /// `rollback_failure` a failure to restore a credentials file, both to be
    /// logged.
    Finish {
        result: Result<(), AppError>,
        mirror_failure: Option<AppError>,
        rollback_failure: Option<AppError>,
    },
}

pub enum RequestView {
    CreateDir(Seq<char>),
    Read(Seq<char>),
    Write(Seq<char>, Seq<u8>),
    Remove(Seq<char>),
}

pub enum ReplyView {
    Succeeded,
    NotFound,
    Contents(Seq<u8>),
    Failed(AppError),
}

pub enum ActionView {
    Request(RequestView),
    Finish(Result<(), AppError>, Option<AppError>, Option<AppError>),
}

impl View for FsRequest {
    type V = RequestView;

    open spec fn view(&self) -> RequestView {
        match self {
            FsRequest::CreateDir(p) => RequestView::CreateDir(p@),
            FsRequest::Read(p) => RequestView::Read(p@),
            FsRequest::Write(p, b) => RequestView::Write(p@, b@),
            FsRequest::Remove(p) => RequestView::Remove(p@),
        }
    }
}

impl View for FsReply {
    type V = ReplyView;

    open spec fn view(&self) -> ReplyView {
        match self {
            FsReply::Succeeded => ReplyView::Succeeded,
            FsReply::NotFound => ReplyView::NotFound,
            FsReply::Contents(b) => ReplyView::Contents(b@),
            FsReply::Failed(e) => ReplyView::Failed(*e),
        }
    }
}

impl View for WriteAction {
    type V = ActionView;

    open spec fn view(&self) -> ActionView {
        match self {
            WriteAction::Request(r) => ActionView::Request(r@),
            WriteAction::Finish { result, mirror_failure, rollback_failure } => ActionView::Finish(
                *result,
                *mirror_failure,
                *rollback_failure,
            ),
        }
    }
}

/// A directory and the two live files in it.
#[derive(Debug)]
pub struct PairTarget {
    pub dir: String,
    pub auth_path: String,
    pub config_path: String,
}

pub struct PairPaths {
    pub dir: Seq<char>,
    pub auth: Seq<char>,
    pub config: Seq<char>,
}

impl View for PairTarget {
    type V = PairPaths;

    open spec fn view(&self) -> PairPaths {
        PairPaths { dir: self.dir@, auth: self.auth_path@, config: self.config_path@ }
    }
}

pub open spec fn target_view(t: Option<PairTarget>) -> Option<PairPaths> {
    match t {
        Some(t) => Some(t@),
        None => None,
    }
}

pub open spec fn bytes_view(b: Option<Vec<u8>>) -> Option<Seq<u8>> {
    match b {
        Some(b) => Some(b@),
        None => None,
    }
}

/// The step within the pair being written.
#[derive(Debug, Clone, Copy, PartialEq, Eq, Structural)]
pub enum Phase {
    /// Creating the directory.
    MakeDir,
    /// Reading the credentials file to restore it on failure.
    Snapshot,
    /// Writing the credentials file.
    WriteAuth,
    /// Writing the configuration file.
    WriteConfig,
    /// Restoring the credentials file after the configuration write failed.
    Rollback,
    Finished,
}

/// The state of a live-config write.
pub struct LiveWriteState {
    /// The new credentials file contents.
    pub auth: Seq<u8>,
    /// The new configuration file contents.
    pub config: Seq<u8>,
    pub primary: PairPaths,
    pub secondary: Option<PairPaths>,
    /// Whether the pair being written is the mirror.
    pub mirroring: bool,
    pub phase: Phase,
    /// The credentials file as read before it was written (`None`: it did not exist).
    pub snapshot: Option<Seq<u8>>,
    /// The failure of the configuration write, held while rolling back.
    pub error: Option<AppError>,
}

/// Whether no write of one file of the transaction can land on the other
/// file of the primary pair.
pub open spec fn targets_distinct(primary: PairPaths, secondary: Option<PairPaths>) -> bool {
    &&& primary.auth != primary.config
    &&& secondary is Some ==> secondary->Some_0.auth != primary.config
        && secondary->Some_0.config != primary.auth
}

impl LiveWriteState {
    /// The pair being written.
    pub open spec fn current(self) -> PairPaths {
        if self.mirroring {
            self.secondary->Some_0
        } else {
            self.primary
        }
    }

    /// The request that the state waits on.
    pub open spec fn request(self) -> RequestView {
        let cur = self.current();
        match self.phase {
            Phase::MakeDir => RequestView::CreateDir(cur.dir),
            Phase::Snapshot => RequestView::Read(cur.auth),
            Phase::WriteAuth => RequestView::Write(cur.auth, self.auth),
            Phase::WriteConfig => RequestView::Write(cur.config, self.config),
            _ => match self.snapshot {
                Some(b) => RequestView::Write(cur.auth, b),
                None => RequestView::Remove(cur.auth),
            },
        }
    }

    /// Whether the state waits on a request.
    pub open spec fn ready(self) -> bool {
        &&& self.phase != Phase::Finished
        &&& self.mirroring ==> self.secondary is Some
        &&& self.phase == Phase::Rollback ==> self.error is Some
    }

    /// Whether `r` is a reply of the kind the pending request has.
    pub open spec fn accepts(self, r: ReplyView) -> bool {
        if self.phase == Phase::Snapshot {
            !(r is Succeeded)
        } else {
            r is Succeeded || r is Failed
        }
    }

    /// The first state of a write of `auth` and `config` into `primary`,
    /// mirrored into `secondary` when there is one.
    pub open spec fn is_initial(self) -> bool {
        &&& self.phase == Phase::MakeDir
        &&& !self.mirroring
        &&& self.snapshot is None
        &&& self.error is None
    }

    /// The current pair ends with failure `e` (after a restore that failed
    /// with `rollback`, if any): the transaction fails with `e`, unless the
    /// pair is the mirror, whose failure is only reported.
    pub open spec fn fail_pair(self, e: AppError, rollback: Option<AppError>) -> (LiveWriteState, ActionView) {
        let s = LiveWriteState { phase: Phase::Finished, error: None, ..self };
        if self.mirroring {
            (s, ActionView::Finish(Ok(()), Some(e), rollback))
        } else {
            (s, ActionView::Finish(Err(e), None, rollback))
        }
    }

    /// The current pair is written: go on to the mirror, if any, else finish.
    pub open spec fn pair_done(self) -> (LiveWriteState, ActionView) {
        if !self.mirroring && self.secondary is Some {
            let s = LiveWriteState {
                mirroring: true,
                phase: Phase::MakeDir,
                snapshot: None,
                error: None,
                ..self
            };
            (s, ActionView::Request(s.request()))
        } else {
            (LiveWriteState { phase: Phase::Finished, ..self }, ActionView::Finish(Ok(()), None, None))
        }
    }

    /// The next state and action once the pending request got reply `r`.
    pub open spec fn next(self, r: ReplyView) -> (LiveWriteState, ActionView) {
        match r {
            ReplyView::Failed(e) => match self.phase {
                Phase::WriteConfig => {
                    let s = LiveWriteState { phase: Phase::Rollback, error: Some(e), ..self };
                    (s, ActionView::Request(s.request()))
                },
                Phase::Rollback => self.fail_pair(self.error->Some_0, Some(e)),
                _ => self.fail_pair(e, None),
            },
            _ => match self.phase {
                Phase::MakeDir => {
                    let s = LiveWriteState { phase: Phase::Snapshot, ..self };
                    (s, ActionView::Request(s.request()))
                },
                Phase::Snapshot => {
                    let snap = match r {
                        ReplyView::Contents(b) => Some(b),
                        _ => None,
                    };
                    let s = LiveWriteState { phase: Phase::WriteAuth, snapshot: snap, ..self };
                    (s, ActionView::Request(s.request()))
                },
                Phase::WriteAuth => {
                    let s = LiveWriteState { phase: Phase::WriteConfig, ..self };
                    (s, ActionView::Request(s.request()))
                },
                Phase::WriteConfig => self.pair_done(),
                Phase::Rollback => self.fail_pair(self.error->Some_0, None),
                Phase::Finished => (self, ActionView::Finish(Ok(()), None, None)),
            },
        }
    }
}

/// A live-config write in progress.
#[derive(Debug)]
pub struct LiveWrite {
    auth: Vec<u8>,
    config: Vec<u8>,
    primary: PairTarget,
    secondary: Option<PairTarget>,
    mirroring: bool,
    phase: Phase,
    snapshot: Option<Vec<u8>>,
    error: Option<AppError>,
}

impl View for LiveWrite {
    type V = LiveWriteState;

    closed spec fn view(&self) -> LiveWriteState {
        LiveWriteState {
            auth: self.auth@,
            config: self.config@,
            primary: self.primary@,
            secondary: target_view(self.secondary),
            mirroring: self.mirroring,
            phase: self.phase,
            snapshot: bytes_view(self.snapshot),
            error: self.error,
        }
    }
}

fn copy_bytes(b: &Vec<u8>) -> (r: Vec<u8>)
    ensures
        r@ == b@,
{
    let mut out: Vec<u8> = Vec::new();
    let mut i: usize = 0;
    while i < b.len()
        invariant
            i <= b.len(),
            out@ == b@.subrange(0, i as int),
        decreases b.len() - i,
    {
        out.push(b[i]);
        i = i + 1;
        assert(out@ =~= b@.subrange(0, i as int));
    }
    assert(b@.subrange(0, b.len() as int) =~= b@);
    out
}

impl LiveWrite {
    /// Starts writing `auth` and `config` into the files of `primary`, then,
    /// when that succeeded, mirroring them into `secondary`. The returned
    /// action is the first request.
    pub fn begin(auth: Vec<u8>, config: Vec<u8>, primary: PairTarget, secondary: Option<PairTarget>) -> (r: (LiveWrite, WriteAction))
        ensures
            r.0@.is_initial(),
            r.0@.auth == auth@,
            r.0@.config == config@,
            r.0@.primary == primary@,
            r.0@.secondary == target_view(secondary),
            r.1@ == ActionView::Request(r.0@.request()),
    {
        let w = LiveWrite {
            auth,
            config,
            primary,
            secondary,
            mirroring: false,
            phase: Phase::MakeDir,
            snapshot: None,
            error: None,
        };
        let a = WriteAction::Request(w.request());
        (w, a)
    }

    fn current(&self) -> (r: &PairTarget)
        requires
            self@.mirroring ==> self@.secondary is Some,
        ensures
            r@ == self@.current(),
    {
        if self.mirroring {
            self.secondary.as_ref().unwrap()
        } else {
            &self.primary
        }
    }

    fn request(&self) -> (r: FsRequest)
        requires
            self@.mirroring ==> self@.secondary is Some,
        ensures
            r@ == self@.request(),
    {
        let cur = self.current();
        match self.phase {
            Phase::MakeDir => FsRequest::CreateDir(cur.dir.clone()),
            Phase::Snapshot => FsRequest::Read(cur.auth_path.clone()),
            Phase::WriteAuth => FsRequest::Write(cur.auth_path.clone(), copy_bytes(&self.auth)),
            Phase::WriteConfig => FsRequest::Write(cur.config_path.clone(), copy_bytes(&self.config)),
            _ => match &self.snapshot {
                Some(b) => FsRequest::Write(cur.auth_path.clone(), copy_bytes(b)),
                None => FsRequest::Remove(cur.auth_path.clone()),
            },
        }
    }

    fn fail_pair(&mut self, e: AppError, rollback: Option<AppError>) -> (act: WriteAction)
        ensures
            (final(self)@, act@) == old(self)@.fail_pair(e, rollback),
    {
        self.phase = Phase::Finished;
        self.error = None;
        if self.mirroring {
            WriteAction::Finish { result: Ok(()), mirror_failure: Some(e), rollback_failure: rollback }
        } else {
            WriteAction::Finish { result: Err(e), mirror_failure: None, rollback_failure: rollback }
        }
    }

    fn pair_done(&mut self) -> (act: WriteAction)
        requires
            old(self)@.mirroring ==> old(self)@.secondary is Some,
        ensures
            (final(self)@, act@) == old(self)@.pair_done(),
    {
        if !self.mirroring && self.secondary.is_some() {
            self.mirroring = true;
            self.phase = Phase::MakeDir;
            self.snapshot = None;
            self.error = None;
            WriteAction::Request(self.request())
        } else {
            self.phase = Phase::Finished;
            WriteAction::Finish { result: Ok(()), mirror_failure: None, rollback_failure: None }
        }
    }

    /// Hands the outcome of the pending request to the write and returns
    /// what to do next.
    pub fn step(&mut self, reply: FsReply) -> (act: WriteAction)
        requires
            old(self)@.ready(),
            old(self)@.accepts(reply@),
        ensures
            (final(self)@, act@) == old(self)@.next(reply@),
    {
        match reply {
            FsReply::Failed(e) => match self.phase {
                Phase::WriteConfig => {
                    self.phase = Phase::Rollback;
                    self.error = Some(e);
                    WriteAction::Request(self.request())
                },
                Phase::Rollback => {
                    let held = self.error.take().unwrap();
                    self.fail_pair(held, Some(e))
                },
                _ => self.fail_pair(e, None),
            },
            other => match self.phase {
                Phase::MakeDir => {
                    self.phase = Phase::Snapshot;
                    WriteAction::Request(self.request())
                },
                Phase::Snapshot => {
                    self.snapshot = match other {
                        FsReply::Contents(b) => Some(b),
                        _ => None,
                    };
                    self.phase = Phase::WriteAuth;
                    WriteAction::Request(self.request())
                },
                Phase::WriteAuth => {
                    self.phase = Phase::WriteConfig;
                    WriteAction::Request(self.request())
                },
                Phase::WriteConfig => self.pair_done(),
                Phase::Rollback => {
                    let held = self.error.take().unwrap();
                    self.fail_pair(held, None)
                },
                Phase::Finished => WriteAction::Finish {
                    result: Ok(()),
                    mirror_failure: None,
                    rollback_failure: None,
                },
            },
        }
    }
}

/// Files by path, with their contents.
pub type FsModel = Map<Seq<char>, Seq<u8>>;

/// Whether `r` is a possible outcome of `req` on `fs`: a read sees what the
/// file holds (or that it is missing) unless it fails; any other request
/// either succeeds or fails.
pub open spec fn possible_reply(fs: FsModel, req: RequestView, r: ReplyView) -> bool {
    match req {
        RequestView::Read(p) => match r {
            ReplyView::NotFound => !fs.contains_key(p),
            ReplyView::Contents(b) => fs.contains_key(p) && fs[p] == b,
            ReplyView::Failed(_) => true,
            ReplyView::Succeeded => false,
        },
        _ => r is Succeeded || r is Failed,
    }
}

/// The files after `req` got reply `r`: a successful write or removal takes
/// effect; a failed one leaves the file as it was.
pub open spec fn apply_reply(fs: FsModel, req: RequestView, r: ReplyView) -> FsModel {
    match req {
        RequestView::Write(p, b) => if r is Succeeded {
            fs.insert(p, b)
        } else {
            fs
        },
        RequestView::Remove(p) => if r is Succeeded {
            fs.remove(p)
        } else {
            fs
        },
        _ => fs,
    }
}

/// The state, last action and files after feeding `replies` one by one,
/// stopping at the end of the write.
pub open spec fn run(s: LiveWriteState, a: ActionView, fs: FsModel, replies: Seq<ReplyView>) -> (LiveWriteState, ActionView, FsModel)
    decreases replies.len(),
{
    if replies.len() == 0 || a is Finish {
        (s, a, fs)
    } else {
        let (s2, a2) = s.next(replies[0]);
        run(s2, a2, apply_reply(fs, s.request(), replies[0]), replies.drop_first())
    }
}

/// Whether each of `replies` is a possible outcome of the request it answers,
/// and each restore of the primary credentials file succeeds.
pub open spec fn run_possible(s: LiveWriteState, a: ActionView, fs: FsModel, replies: Seq<ReplyView>) -> bool
    decreases replies.len(),
{
    if replies.len() == 0 || a is Finish {
        true
    } else {
        let r = replies[0];
        &&& s.accepts(r)
        &&& possible_reply(fs, s.request(), r)
        &&& (s.phase == Phase::Rollback && !s.mirroring ==> r is Succeeded)
        &&& run_possible(s.next(r).0, s.next(r).1, apply_reply(fs, s.request(), r), replies.drop_first())
    }
}

/// Whether `fs` holds the new pair in the primary directory.
pub open spec fn committed(s: LiveWriteState, fs: FsModel) -> bool {
    &&& fs.contains_key(s.primary.auth)
    &&& fs[s.primary.auth] == s.auth
    &&& fs.contains_key(s.primary.config)
    &&& fs[s.primary.config] == s.config
}

/// Whether `snap` is what `fs` holds at `p`.
pub open spec fn snapshot_of(snap: Option<Seq<u8>>, fs: FsModel, p: Seq<char>) -> bool {
    match snap {
        Some(b) => fs.contains_key(p) && fs[p] == b,
        None => !fs.contains_key(p),
    }
}

spec fn same_data(s: LiveWriteState, t: LiveWriteState) -> bool {
    &&& s.auth == t.auth
    &&& s.config == t.config
    &&& s.primary == t.primary
    &&& s.secondary == t.secondary
}

spec fn inv(s: LiveWriteState, a: ActionView, fs: FsModel, fs0: FsModel) -> bool {
    &&& targets_distinct(s.primary, s.secondary)
    &&& s.mirroring ==> s.secondary is Some
    &&& s.phase == Phase::Rollback ==> s.error is Some
    &&& (s.phase == Phase::Finished <==> a is Finish)
    &&& s.phase != Phase::Finished ==> a == ActionView::Request(s.request())
    &&& if !s.mirroring {
        match s.phase {
            Phase::MakeDir | Phase::Snapshot => fs == fs0,
            Phase::WriteAuth => fs == fs0 && snapshot_of(s.snapshot, fs0, s.primary.auth),
            Phase::WriteConfig | Phase::Rollback => fs == fs0.insert(s.primary.auth, s.auth)
                && snapshot_of(s.snapshot, fs0, s.primary.auth),
            Phase::Finished => (a->Finish_0 is Ok ==> committed(s, fs)) && (a->Finish_0 is Err
                ==> fs == fs0),
        }
    } else {
        &&& committed(s, fs)
        &&& s.phase == Phase::Finished ==> a->Finish_0 is Ok
        &&& s.phase == Phase::WriteAuth ==> snapshot_of(s.snapshot, fs, s.secondary->Some_0.auth)
        &&& (s.phase == Phase::WriteConfig || s.phase == Phase::Rollback)
            && s.secondary->Some_0.auth == s.primary.auth ==> s.snapshot == Some(s.auth)
    }
}

proof fn lemma_step_inv(s: LiveWriteState, a: ActionView, fs: FsModel, fs0: FsModel, r: ReplyView)
    requires
        inv(s, a, fs, fs0),
        s.phase != Phase::Finished,
        s.accepts(r),
        possible_reply(fs, s.request(), r),
        s.phase == Phase::Rollback && !s.mirroring ==> r is Succeeded,
    ensures
        inv(s.next(r).0, s.next(r).1, apply_reply(fs, s.request(), r), fs0),
        same_data(s.next(r).0, s),
{
    let fs2 = apply_reply(fs, s.request(), r);
    if !s.mirroring && s.phase == Phase::Rollback {
        match s.snapshot {
            Some(b) => assert(fs2 =~= fs0),
            None => assert(fs2 =~= fs0),
        }
    }
}

proof fn lemma_run_inv(s: LiveWriteState, a: ActionView, fs: FsModel, fs0: FsModel, replies: Seq<ReplyView>)
    requires
        inv(s, a, fs, fs0),
        run_possible(s, a, fs, replies),
    ensures
        inv(run(s, a, fs, replies).0, run(s, a, fs, replies).1, run(s, a, fs, replies).2, fs0),
        same_data(run(s, a, fs, replies).0, s),
    decreases replies.len(),
{
    if replies.len() == 0 || a is Finish {
    } else {
        let r = replies[0];
        lemma_step_inv(s, a, fs, fs0, r);
        lemma_run_inv(s.next(r).0, s.next(r).1, apply_reply(fs, s.request(), r), fs0, replies.drop_first());
    }
}

/// The pair is one unit. Whatever the file system answers, within what
/// `possible_reply` allows and with each restore of the primary credentials
/// file succeeding: when the write finishes with `Ok`, the primary directory
/// holds exactly the new credentials and configuration; when it finishes with
/// an error, every file is as it was before the write began (a credentials
/// file that did not exist does not exist). A failed mirror never turns a
/// finished write into an error.
pub proof fn lemma_live_write_is_atomic(s0: LiveWriteState, a0: ActionView, fs0: FsModel, replies: Seq<ReplyView>)
    requires
        s0.is_initial(),
        targets_distinct(s0.primary, s0.secondary),
        a0 == ActionView::Request(s0.request()),
        run_possible(s0, a0, fs0, replies),
    ensures
        ({
            let (s, a, fs) = run(s0, a0, fs0, replies);
            &&& a matches ActionView::Finish(Ok(()), _, _) ==> {
                &&& fs.contains_key(s0.primary.auth)
                &&& fs[s0.primary.auth] == s0.auth
                &&& fs.contains_key(s0.primary.config)
                &&& fs[s0.primary.config] == s0.config
            }
            &&& a matches ActionView::Finish(Err(_), _, _) ==> fs == fs0
        }),
{
    lemma_run_inv(s0, a0, fs0, fs0, replies);
}

} // verus!
