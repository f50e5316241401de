//! Writing a file: the local copy is written and then uploaded; a file that
//! exists only in the cloud is first brought down.
use vstd::prelude::*;

verus! {

/// The steps of a write, in the order they happen.
#[derive(Debug, Clone, Copy, PartialEq, Eq, Structural)]
pub enum WriteStep {
    /// Nothing done yet.
    Start,
    /// Look the file up in the cloud.
    QueryCloud,
    /// Download the cloud copy to the local path.
    Download,
    /// Write the new content to the local path.
    WriteLocal,
    /// Upload the local copy.
    Upload,
    /// The write is complete.
    Done,
}

/// The step after `step`, given whether the local file exists, whether an
/// access token is set, and (once looked up) whether the cloud copy exists.
pub open spec fn write_next(step: WriteStep, local_exists: bool, at_set: bool, cloud_exists: bool) -> WriteStep {
    match step {
        WriteStep::Start => if !local_exists && at_set {
            WriteStep::QueryCloud
        } else {
            WriteStep::WriteLocal
        },
        WriteStep::QueryCloud => if cloud_exists {
            WriteStep::Download
        } else {
            WriteStep::WriteLocal
        },
        WriteStep::Download => WriteStep::WriteLocal,
        WriteStep::WriteLocal => if at_set {
            WriteStep::Upload
        } else {
            WriteStep::Done
        },
        WriteStep::Upload => WriteStep::Done,
        WriteStep::Done => WriteStep::Done,
    }
}

/// The next step of a write.
pub fn next_write_step(step: WriteStep, local_exists: bool, at_set: bool, cloud_exists: bool) -> (r: WriteStep)
    ensures
        r == write_next(step, local_exists, at_set, cloud_exists),
{
    match step {
        WriteStep::Start => if !local_exists && at_set {
            WriteStep::QueryCloud
        } else {
            WriteStep::WriteLocal
        },
        WriteStep::QueryCloud => if cloud_exists {
            WriteStep::Download
        } else {
            WriteStep::WriteLocal
        },
        WriteStep::Download => WriteStep::WriteLocal,
        WriteStep::WriteLocal => if at_set {
            WriteStep::Upload
        } else {
            WriteStep::Done
        },
        WriteStep::Upload => WriteStep::Done,
        WriteStep::Done => WriteStep::Done,
    }
}

/// The steps taken from `step` on, at most `n` of them.
pub open spec fn write_steps(step: WriteStep, local_exists: bool, at_set: bool, cloud_exists: bool, n: nat) -> Seq<WriteStep>
    decreases n,
{
    if n == 0 || step == WriteStep::Done {
        Seq::empty()
    } else {
        let s = write_next(step, local_exists, at_set, cloud_exists);
        seq![s] + write_steps(s, local_exists, at_set, cloud_exists, (n - 1) as nat)
    }
}

/// The fusion rule of writes: with an access token, the new content is
/// written locally and then uploaded; when the file is missing locally but
/// present in the cloud, the cloud copy is downloaded first.  Without a
/// token the write is local only.  Every write ends within five steps.
pub proof fn lemma_write_sequence(local_exists: bool, at_set: bool, cloud_exists: bool)
    ensures
        write_steps(WriteStep::Start, local_exists, at_set, cloud_exists, 5) == if !at_set {
            seq![WriteStep::WriteLocal, WriteStep::Done]
        } else if local_exists {
            seq![WriteStep::WriteLocal, WriteStep::Upload, WriteStep::Done]
        } else if cloud_exists {
            seq![WriteStep::QueryCloud, WriteStep::Download, WriteStep::WriteLocal, WriteStep::Upload, WriteStep::Done]
        } else {
            seq![WriteStep::QueryCloud, WriteStep::WriteLocal, WriteStep::Upload, WriteStep::Done]
        },
{
    reveal_with_fuel(write_steps, 6);
    let s = write_steps(WriteStep::Start, local_exists, at_set, cloud_exists, 5);
    if !at_set {
        assert(s =~= seq![WriteStep::WriteLocal, WriteStep::Done]);
    } else if local_exists {
        assert(s =~= seq![WriteStep::WriteLocal, WriteStep::Upload, WriteStep::Done]);
    } else if cloud_exists {
        assert(s =~= seq![WriteStep::QueryCloud, WriteStep::Download, WriteStep::WriteLocal, WriteStep::Upload, WriteStep::Done]);
    } else {
        assert(s =~= seq![WriteStep::QueryCloud, WriteStep::WriteLocal, WriteStep::Upload, WriteStep::Done]);
    }
}

} // verus!
