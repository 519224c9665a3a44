//! The command mailbox: the queue through which controller calls reach the
//! UI loop.
//!
//! A mailbox starts unpublished, is opened once before any controller call may
//! use it, and is closed when the UI loop has gone. Commands leave in the
//! order in which they were posted, each exactly once.

use std::collections::VecDeque;
use vstd::prelude::*;

verus! {

/// What a controller, or the engine's wake notifier, asks of the UI loop.
#[derive(Clone, Debug, PartialEq, Eq)]
pub enum Command {
    Wake,
    ExecuteScript(String),
    SetTitle(String),
    Resize(u32, u32),
}

/// A [`Command`] with its texts as sequences of characters.
pub enum CommandView {
    Wake,
    ExecuteScript(Seq<char>),
    SetTitle(Seq<char>),
    Resize(u32, u32),
}

impl View for Command {
    type V = CommandView;

    open spec fn view(&self) -> CommandView {
        match *self {
            Command::Wake => CommandView::Wake,
            Command::ExecuteScript(script) => CommandView::ExecuteScript(script@),
            Command::SetTitle(title) => CommandView::SetTitle(title@),
            Command::Resize(width, height) => CommandView::Resize(width, height),
        }
    }
}

/// Where a mailbox stands in its life.
#[derive(Clone, Copy, Debug, PartialEq, Eq, Structural)]
pub enum Lifecycle {
    Unpublished,
    Open,
    Closed,
}

/// Why a command was not taken.
#[derive(Clone, Copy, Debug, PartialEq, Eq, Structural)]
pub enum PostError {
    /// The mailbox has not been published yet.
    Unpublished,
    /// The consuming side has been torn down.
    Closed,
}

/// The state of a mailbox and the commands that wait in it, oldest first.
pub struct MailboxView {
    pub lifecycle: Lifecycle,
    pub pending: Seq<CommandView>,
}

pub struct Mailbox {
    lifecycle: Lifecycle,
    queue: VecDeque<Command>,
}

/// The views of the commands of `queue`, in the same order.
pub open spec fn command_views(queue: Seq<Command>) -> Seq<CommandView> {
    Seq::new(queue.len(), |i: int| queue[i]@)
}

/// The mailbox after `publish`: an unpublished one opens, any other stays as
/// it is.
pub open spec fn published(mailbox: MailboxView) -> MailboxView {
    MailboxView {
        lifecycle: if mailbox.lifecycle == Lifecycle::Unpublished {
            Lifecycle::Open
        } else {
            mailbox.lifecycle
        },
        pending: mailbox.pending,
    }
}

/// What `post` answers on a mailbox in the given state.
pub open spec fn post_result(lifecycle: Lifecycle) -> Result<(), PostError> {
    match lifecycle {
        Lifecycle::Unpublished => Err(PostError::Unpublished),
        Lifecycle::Open => Ok(()),
        Lifecycle::Closed => Err(PostError::Closed),
    }
}

/// The mailbox after `post`: an open one holds the command behind all that
/// waited already, any other is unchanged.
pub open spec fn posted(mailbox: MailboxView, command: CommandView) -> MailboxView {
    if mailbox.lifecycle == Lifecycle::Open {
        MailboxView { lifecycle: mailbox.lifecycle, pending: mailbox.pending.push(command) }
    } else {
        mailbox
    }
}

impl View for Mailbox {
    type V = MailboxView;

    closed spec fn view(&self) -> MailboxView {
        MailboxView { lifecycle: self.lifecycle, pending: command_views(self.queue@) }
    }
}

impl Mailbox {
    /// An unpublished mailbox in which nothing waits.
    pub fn new() -> (mailbox: Mailbox)
        ensures
            mailbox@.lifecycle == Lifecycle::Unpublished,
            mailbox@.pending == Seq::<CommandView>::empty(),
    {
        let mailbox = Mailbox { lifecycle: Lifecycle::Unpublished, queue: VecDeque::new() };
        assert(command_views(mailbox.queue@) =~= Seq::<CommandView>::empty());
        mailbox
    }

    /// Opens the mailbox for posting. Only the first call has an effect: a
    /// mailbox that is open or closed already stays so.
    pub fn publish(&mut self)
        ensures
            final(self)@ == published(old(self)@),
    {
        match self.lifecycle {
            Lifecycle::Unpublished => {
                self.lifecycle = Lifecycle::Open;
            },
            _ => {},
        }
    }

    /// Marks the consuming side as gone: every later `post` fails. What waits
    /// stays in the queue.
    pub fn close(&mut self)
        ensures
            final(self)@.lifecycle == Lifecycle::Closed,
            final(self)@.pending == old(self)@.pending,
    {
        self.lifecycle = Lifecycle::Closed;
    }

    /// Closes the mailbox and takes back the command that was posted last, if
    /// any waits: for a post whose consumer turned out to be gone, so that
    /// the failed post leaves nothing behind.
    pub fn close_unsent(&mut self) -> (unsent: Option<Command>)
        ensures
            final(self)@.lifecycle == Lifecycle::Closed,
            old(self)@.pending.len() == 0 ==> unsent is None && final(self)@.pending == old(
                self,
            )@.pending,
            old(self)@.pending.len() > 0 ==> unsent is Some && unsent->0@ == old(
                self,
            )@.pending.last() && final(self)@.pending == old(self)@.pending.drop_last(),
    {
        self.lifecycle = Lifecycle::Closed;
        let unsent = self.queue.pop_back();
        assert(command_views(self.queue@) =~= if old(self).queue@.len() > 0 {
            command_views(old(self).queue@).drop_last()
        } else {
            command_views(old(self).queue@)
        });
        unsent
    }

    pub fn lifecycle(&self) -> (lifecycle: Lifecycle)
        ensures
            lifecycle == self@.lifecycle,
    {
        self.lifecycle
    }

    /// The number of commands that wait.
    pub fn pending(&self) -> (count: usize)
        ensures
            count == self@.pending.len(),
    {
        self.queue.len()
    }

    /// Queues `command` behind all that wait, if the mailbox is open.
    /// Otherwise the mailbox stays as it was and the error says whether it was
    /// never published or is closed.
    pub fn post(&mut self, command: Command) -> (result: Result<(), PostError>)
        ensures
            result == post_result(old(self)@.lifecycle),
            final(self)@ == posted(old(self)@, command@),
    {
        match self.lifecycle {
            Lifecycle::Unpublished => Err(PostError::Unpublished),
            Lifecycle::Closed => Err(PostError::Closed),
            Lifecycle::Open => {
                self.queue.push_back(command);
                assert(command_views(self.queue@) =~= command_views(old(self).queue@).push(
                    command@,
                ));
                Ok(())
            },
        }
    }

    /// Takes the oldest waiting command out of the mailbox; `None` if nothing
    /// waits. The lifecycle is not looked at: what was posted before the
    /// mailbox closed can still be taken.
    pub fn take(&mut self) -> (command: Option<Command>)
        ensures
            final(self)@.lifecycle == old(self)@.lifecycle,
            old(self)@.pending.len() == 0 ==> command is None && final(self)@ == old(self)@,
            old(self)@.pending.len() > 0 ==> command is Some && command->0@ == old(
                self,
            )@.pending[0] && final(self)@.pending == old(self)@.pending.subrange(
                1,
                old(self)@.pending.len() as int,
            ),
    {
        let command = self.queue.pop_front();
        assert(command_views(self.queue@) =~= if old(self).queue@.len() > 0 {
            command_views(old(self).queue@).subrange(1, old(self).queue@.len() as int)
        } else {
            command_views(old(self).queue@)
        });
        command
    }
}

/// Commands leave in the order in which they were posted: after two posts to
/// an open mailbox the first command stands before the second, behind all that
/// waited before, and nothing else was added.
pub proof fn posts_keep_their_order(mailbox: MailboxView, first: CommandView, second: CommandView)
    requires
        mailbox.lifecycle == Lifecycle::Open,
    ensures
        posted(posted(mailbox, first), second).pending == mailbox.pending + seq![first, second],
{
    assert(posted(posted(mailbox, first), second).pending =~= mailbox.pending + seq![
        first,
        second,
    ]);
}

/// A mailbox that is not open takes nothing: posting leaves it as it was.
pub proof fn post_to_unopened_changes_nothing(mailbox: MailboxView, command: CommandView)
    requires
        mailbox.lifecycle != Lifecycle::Open,
    ensures
        post_result(mailbox.lifecycle) is Err,
        posted(mailbox, command) == mailbox,
{
}

} // verus!
