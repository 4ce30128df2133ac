use vstd::prelude::*;

use crate::file::{content_bytes, ContentError, File};
use crate::mode::{mode_bits, parse_mode};

verus! {

/// Why applying one file failed. Each is scoped to its file.
#[derive(Debug)]
pub enum ApplyError {
    /// The content does not decode under the declared encoding.
    Decode(ContentError),
    /// The mode is not octal digits with a value in `1..=0o7777`.
    InvalidMode(String),
    /// No account has this name.
    UnknownUser(String),
    /// No group has this name.
    UnknownGroup(String),
    /// The file system refused an operation; the text describes it.
    Io(String),
}

/// What a file is to become.
#[derive(Debug)]
pub enum Content {
    /// The file must not exist.
    Absent,
    /// The declared content could not be decoded: nothing is done on disk.
    Undecodable(ContentError),
    /// The file must hold exactly these bytes.
    Bytes(Vec<u8>),
}

/// Where an update stands. Metadata steps come after a successful write, in
/// the order mode, owner, group, each only where the file declares it.
#[derive(Clone, Copy, Debug, PartialEq, Eq, Structural)]
pub enum Stage {
    Start,
    Removing,
    Writing,
    Chmod,
    Chown,
    Chgrp,
    Finished,
}

/// An operation the caller is to perform, then report with an [`Event`].
#[derive(Debug)]
pub enum Action {
    /// Remove the file at the path.
    Remove(String),
    /// Create or truncate the file at the path and write exactly these bytes.
    Write(String, Vec<u8>),
    /// Set the file's permission bits to exactly this value.
    SetMode(String, u32),
    /// Make the named account the file's owner, leaving its group unchanged.
    SetOwner(String, String),
    /// Make the named group the file's group, leaving its owner unchanged.
    SetGroup(String, String),
    /// The update is over; its result is [`Update::into_result`].
    Finish,
}

/// How the caller's last operation went.
#[derive(Debug)]
pub enum Event {
    Done,
    /// The target did not exist.
    NotFound(String),
    /// The account or group name did not resolve.
    NoSuchName,
    /// Any other failure.
    Failed(String),
}

/// The reconciliation of one declared file, as a state machine: each
/// [`Update::step`] takes the outcome of the previous action and says what to
/// do next. Failures are collected, never rolled back.
#[derive(Debug)]
pub struct Update {
    pub path: String,
    pub content: Content,
    pub mode: Option<u32>,
    pub user: Option<String>,
    pub group: Option<String>,
    pub stage: Stage,
    pub errors: Vec<ApplyError>,
}

pub enum ContentModel {
    Absent,
    Undecodable(ContentError),
    Bytes(Seq<u8>),
}

pub enum ActionModel {
    Remove(String),
    Write(String, Seq<u8>),
    SetMode(String, u32),
    SetOwner(String, String),
    SetGroup(String, String),
    Finish,
}

pub struct UpdateModel {
    pub path: String,
    pub content: ContentModel,
    pub mode: Option<u32>,
    pub user: Option<String>,
    pub group: Option<String>,
    pub stage: Stage,
    pub errors: Seq<ApplyError>,
}

impl View for Content {
    type V = ContentModel;

    open spec fn view(&self) -> ContentModel {
        match self {
            Content::Absent => ContentModel::Absent,
            Content::Undecodable(e) => ContentModel::Undecodable(*e),
            Content::Bytes(b) => ContentModel::Bytes(b@),
        }
    }
}

impl View for Action {
    type V = ActionModel;

    open spec fn view(&self) -> ActionModel {
        match self {
            Action::Remove(p) => ActionModel::Remove(*p),
            Action::Write(p, b) => ActionModel::Write(*p, b@),
            Action::SetMode(p, m) => ActionModel::SetMode(*p, *m),
            Action::SetOwner(p, u) => ActionModel::SetOwner(*p, *u),
            Action::SetGroup(p, g) => ActionModel::SetGroup(*p, *g),
            Action::Finish => ActionModel::Finish,
        }
    }
}

impl View for Update {
    type V = UpdateModel;

    open spec fn view(&self) -> UpdateModel {
        UpdateModel {
            path: self.path,
            content: self.content@,
            mode: self.mode,
            user: self.user,
            group: self.group,
            stage: self.stage,
            errors: self.errors@,
        }
    }
}

/// The update a declared file starts as. A file without content is removed
/// and its metadata ignored; one whose content does not decode is left alone;
/// otherwise it is written, and an invalid mode is recorded and skipped.
pub open spec fn start_of(f: &File) -> UpdateModel {
    match f.content {
        None => UpdateModel {
            path: f.path,
            content: ContentModel::Absent,
            mode: None,
            user: None,
            group: None,
            stage: Stage::Start,
            errors: Seq::empty(),
        },
        Some(_) => match content_bytes(f) {
            None => UpdateModel {
                path: f.path,
                content: ContentModel::Undecodable(ContentError::InvalidBase64),
                mode: None,
                user: None,
                group: None,
                stage: Stage::Start,
                errors: Seq::empty(),
            },
            Some(b) => UpdateModel {
                path: f.path,
                content: ContentModel::Bytes(b),
                mode: match f.mode {
                    Some(m) => match mode_bits(m@) {
                        Some(v) => Some(v as u32),
                        None => None,
                    },
                    None => None,
                },
                user: f.user,
                group: f.group,
                stage: Stage::Start,
                errors: match f.mode {
                    Some(m) => if mode_bits(m@) is None {
                        seq![ApplyError::InvalidMode(m)]
                    } else {
                        Seq::empty()
                    },
                    None => Seq::empty(),
                },
            },
        },
    }
}

pub open spec fn rank(s: Stage) -> int {
    match s {
        Stage::Start => 0,
        Stage::Removing => 1,
        Stage::Writing => 2,
        Stage::Chmod => 3,
        Stage::Chown => 4,
        Stage::Chgrp => 5,
        Stage::Finished => 6,
    }
}

/// The first metadata step at rank `from` or later that the update has work for.
pub open spec fn next_meta(u: UpdateModel, from: int) -> Stage {
    if from <= 3 && u.mode is Some {
        Stage::Chmod
    } else if from <= 4 && u.user is Some {
        Stage::Chown
    } else if from <= 5 && u.group is Some {
        Stage::Chgrp
    } else {
        Stage::Finished
    }
}

/// The action that a metadata step, or the end, asks for.
pub open spec fn action_at(u: UpdateModel, s: Stage) -> ActionModel {
    match s {
        Stage::Chmod => ActionModel::SetMode(u.path, u.mode->0),
        Stage::Chown => ActionModel::SetOwner(u.path, u.user->0),
        Stage::Chgrp => ActionModel::SetGroup(u.path, u.group->0),
        _ => ActionModel::Finish,
    }
}

/// The error an event records at the update's current step, if any. A missing
/// file is no failure of a removal; an unresolved name is an unknown user or
/// group at the owner and group steps.
pub open spec fn failure(u: UpdateModel, e: Event) -> Option<ApplyError> {
    match e {
        Event::Done => None,
        Event::NotFound(m) => if u.stage == Stage::Removing {
            None
        } else {
            Some(ApplyError::Io(m))
        },
        Event::Failed(m) => Some(ApplyError::Io(m)),
        Event::NoSuchName => if u.stage == Stage::Chown && u.user is Some {
            Some(ApplyError::UnknownUser(u.user->0))
        } else if u.stage == Stage::Chgrp && u.group is Some {
            Some(ApplyError::UnknownGroup(u.group->0))
        } else {
            Some(ApplyError::Io(u.path))
        },
    }
}

pub open spec fn record(errors: Seq<ApplyError>, f: Option<ApplyError>) -> Seq<ApplyError> {
    match f {
        Some(e) => errors.push(e),
        None => errors,
    }
}

/// One transition: the update after an event, and the action it asks for.
pub open spec fn next(u: UpdateModel, e: Event) -> (UpdateModel, ActionModel) {
    match u.stage {
        Stage::Start => match u.content {
            ContentModel::Absent => (
                UpdateModel { stage: Stage::Removing, ..u },
                ActionModel::Remove(u.path),
            ),
            ContentModel::Undecodable(c) => (
                UpdateModel {
                    stage: Stage::Finished,
                    content: ContentModel::Absent,
                    errors: u.errors.push(ApplyError::Decode(c)),
                    ..u
                },
                ActionModel::Finish,
            ),
            ContentModel::Bytes(b) => (
                UpdateModel { stage: Stage::Writing, content: ContentModel::Absent, ..u },
                ActionModel::Write(u.path, b),
            ),
        },
        Stage::Removing => (
            UpdateModel { stage: Stage::Finished, errors: record(u.errors, failure(u, e)), ..u },
            ActionModel::Finish,
        ),
        Stage::Writing => if failure(u, e) is Some {
            (
                UpdateModel {
                    stage: Stage::Finished,
                    errors: record(u.errors, failure(u, e)),
                    ..u
                },
                ActionModel::Finish,
            )
        } else {
            (UpdateModel { stage: next_meta(u, 3), ..u }, action_at(u, next_meta(u, 3)))
        },
        Stage::Finished => (u, ActionModel::Finish),
        _ => (
            UpdateModel {
                stage: next_meta(u, rank(u.stage) + 1),
                errors: record(u.errors, failure(u, e)),
                ..u
            },
            action_at(u, next_meta(u, rank(u.stage) + 1)),
        ),
    }
}

impl File {
    /// Prepares the reconciliation of this file: decodes its content and
    /// checks its mode. Nothing is done on disk.
    pub fn update(&self) -> (r: Update)
        ensures
            r@ == start_of(self),
    {
        match &self.content {
            None => Update {
                path: self.path.clone(),
                content: Content::Absent,
                mode: None,
                user: None,
                group: None,
                stage: Stage::Start,
                errors: Vec::new(),
            },
            Some(_) => match self.decode() {
                Err(e) => Update {
                    path: self.path.clone(),
                    content: Content::Undecodable(e),
                    mode: None,
                    user: None,
                    group: None,
                    stage: Stage::Start,
                    errors: Vec::new(),
                },
                Ok(b) => {
                    let mut errors: Vec<ApplyError> = Vec::new();
                    let mode = match &self.mode {
                        Some(m) => match parse_mode(m.as_str()) {
                            Some(v) => Some(v),
                            None => {
                                errors.push(ApplyError::InvalidMode(m.clone()));
                                None
                            },
                        },
                        None => None,
                    };
                    assert(errors@ =~= start_of(self).errors);
                    Update {
                        path: self.path.clone(),
                        content: Content::Bytes(b),
                        mode,
                        user: clone_text(&self.user),
                        group: clone_text(&self.group),
                        stage: Stage::Start,
                        errors,
                    }
                },
            },
        }
    }
}

fn clone_text(s: &Option<String>) -> (r: Option<String>)
    ensures
        r == *s,
{
    match s {
        Some(t) => Some(t.clone()),
        None => None,
    }
}

impl Update {
    fn failure(&self, e: Event) -> (r: Option<ApplyError>)
        ensures
            r == failure(self@, e),
    {
        match e {
            Event::Done => None,
            Event::NotFound(m) => if self.stage == Stage::Removing {
                None
            } else {
                Some(ApplyError::Io(m))
            },
            Event::Failed(m) => Some(ApplyError::Io(m)),
            Event::NoSuchName => {
                if self.stage == Stage::Chown && self.user.is_some() {
                    Some(ApplyError::UnknownUser(clone_text(&self.user).unwrap()))
                } else if self.stage == Stage::Chgrp && self.group.is_some() {
                    Some(ApplyError::UnknownGroup(clone_text(&self.group).unwrap()))
                } else {
                    Some(ApplyError::Io(self.path.clone()))
                }
            },
        }
    }

    /// Moves to the first metadata step at rank `from` or later that has
    /// work, and says what it asks for.
    fn advance(&mut self, from: u8) -> (r: Action)
        requires
            3 <= from <= 6,
        ensures
            final(self)@ == (UpdateModel { stage: next_meta(old(self)@, from as int), ..old(self)@ }),
            r@ == action_at(old(self)@, next_meta(old(self)@, from as int)),
    {
        if from <= 3 && self.mode.is_some() {
            self.stage = Stage::Chmod;
            Action::SetMode(self.path.clone(), self.mode.unwrap())
        } else if from <= 4 && self.user.is_some() {
            self.stage = Stage::Chown;
            Action::SetOwner(self.path.clone(), clone_text(&self.user).unwrap())
        } else if from <= 5 && self.group.is_some() {
            self.stage = Stage::Chgrp;
            Action::SetGroup(self.path.clone(), clone_text(&self.group).unwrap())
        } else {
            self.stage = Stage::Finished;
            Action::Finish
        }
    }

    fn record(&mut self, f: Option<ApplyError>)
        ensures
            final(self)@ == (UpdateModel { errors: record(old(self)@.errors, f), ..old(self)@ }),
    {
        match f {
            Some(e) => self.errors.push(e),
            None => {},
        }
    }

    /// Takes the outcome of the last action (ignored at the start) and returns
    /// the next action to perform.
    pub fn step(&mut self, e: Event) -> (r: Action)
        ensures
            (final(self)@, r@) == next(old(self)@, e),
    {
        match self.stage {
            Stage::Start => {
                let mut c = Content::Absent;
                std::mem::swap(&mut c, &mut self.content);
                match c {
                    Content::Absent => {
                        self.stage = Stage::Removing;
                        Action::Remove(self.path.clone())
                    },
                    Content::Undecodable(d) => {
                        self.stage = Stage::Finished;
                        self.errors.push(ApplyError::Decode(d));
                        Action::Finish
                    },
                    Content::Bytes(b) => {
                        self.stage = Stage::Writing;
                        Action::Write(self.path.clone(), b)
                    },
                }
            },
            Stage::Removing => {
                let f = self.failure(e);
                self.record(f);
                self.stage = Stage::Finished;
                Action::Finish
            },
            Stage::Writing => {
                let f = self.failure(e);
                if f.is_some() {
                    self.record(f);
                    self.stage = Stage::Finished;
                    Action::Finish
                } else {
                    self.advance(3)
                }
            },
            Stage::Finished => Action::Finish,
            Stage::Chmod => {
                let f = self.failure(e);
                self.record(f);
                self.advance(4)
            },
            Stage::Chown => {
                let f = self.failure(e);
                self.record(f);
                self.advance(5)
            },
            Stage::Chgrp => {
                let f = self.failure(e);
                self.record(f);
                self.advance(6)
            },
        }
    }

    /// Whether the update is over.
    pub fn is_finished(&self) -> (r: bool)
        ensures
            r == (self.stage == Stage::Finished),
    {
        self.stage == Stage::Finished
    }

    /// The update's result: success exactly when no step recorded an error.
    pub fn into_result(self) -> (r: Result<(), Vec<ApplyError>>)
        ensures
            match r {
                Ok(()) => self.errors@.len() == 0,
                Err(es) => self.errors@.len() > 0 && es@ == self.errors@,
            },
    {
        if self.errors.len() == 0 {
            Ok(())
        } else {
            Err(self.errors)
        }
    }
}

} // verus!
