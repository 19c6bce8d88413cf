//! The submissions of the bridge and of the draw passes, in the order in
//! which they were handed to the GPU queue.

use vstd::prelude::*;
use crate::sync::{CopyCommand, CopyCommandModel};
use crate::texture::TextureIdentity;

verus! {

/// A draw pass, as far as the bridge is concerned: it samples one texture.
#[derive(Clone, Copy, Debug, PartialEq, Eq, Structural)]
pub struct DrawPass {
    pub samples: TextureIdentity,
}

/// One entry of the queue.
#[derive(Clone, Copy, Debug, PartialEq, Eq)]
pub enum Submission<'a> {
    Copy(CopyCommand<'a>),
    Draw(DrawPass),
}

/// Mathematical model of an entry of the queue.
pub enum SubmissionModel {
    Copy(CopyCommandModel),
    Draw(DrawPass),
}

impl<'a> View for Submission<'a> {
    type V = SubmissionModel;

    open spec fn view(&self) -> SubmissionModel {
        match *self {
            Submission::Copy(command) => SubmissionModel::Copy(command@),
            Submission::Draw(pass) => SubmissionModel::Draw(pass),
        }
    }
}

/// Record of what was submitted, oldest first. Submitting is fire and forget:
/// an entry is never taken back, changed or reordered.
#[derive(Debug, PartialEq, Eq)]
pub struct CommandQueue<'a> {
    submissions: Vec<Submission<'a>>,
}

impl<'a> View for CommandQueue<'a> {
    type V = Seq<SubmissionModel>;

    closed spec fn view(&self) -> Seq<SubmissionModel> {
        Seq::new(self.submissions@.len(), |i: int| self.submissions@[i]@)
    }
}

impl<'a> CommandQueue<'a> {
    /// A queue to which nothing has been submitted.
    pub fn new() -> (queue: CommandQueue<'a>)
        ensures
            queue@ == Seq::<SubmissionModel>::empty(),
    {
        let queue = CommandQueue { submissions: Vec::new() };
        assert(queue@ =~= Seq::<SubmissionModel>::empty());
        queue
    }

    /// Number of submissions so far.
    pub fn len(&self) -> (len: usize)
        ensures
            len == self@.len(),
    {
        self.submissions.len()
    }

    /// The submission at `index`, counted from the oldest, if there are that many.
    pub fn get(&self, index: usize) -> (entry: Option<Submission<'a>>)
        ensures
            entry is Some <==> index < self@.len(),
            entry matches Some(submission) ==> submission@ == self@[index as int],
    {
        if index < self.submissions.len() {
            Some(self.submissions[index])
        } else {
            None
        }
    }

    /// Submits a copy behind everything submitted before.
    pub fn submit_copy(&mut self, command: CopyCommand<'a>)
        ensures
            final(self)@ == old(self)@.push(SubmissionModel::Copy(command@)),
    {
        self.submissions.push(Submission::Copy(command));
        assert(self@ =~= old(self)@.push(SubmissionModel::Copy(command@)));
    }

    /// Submits a draw pass behind everything submitted before.
    pub fn submit_draw(&mut self, pass: DrawPass)
        ensures
            final(self)@ == old(self)@.push(SubmissionModel::Draw(pass)),
    {
        self.submissions.push(Submission::Draw(pass));
        assert(self@ =~= old(self)@.push(SubmissionModel::Draw(pass)));
    }
}

} // verus!
