//! Effects that the library asks its caller to carry out.
//!
//! Nothing in this crate touches the machine. Every routine that would mount,
//! unmount, spawn or write instead returns the list of [`Action`]s to perform,
//! in order. The caller runs them one after the other and stops at the first
//! one that fails.
//!
//! A shutdown is the exception. Its plan is carried to its end: a step that
//! fails is logged and the next one follows, as
//! [`after_shut_down_step`](crate::system::after_shut_down_step) says, so that
//! the machine is powered down whatever became of the unmounts before.

use vstd::prelude::*;

verus! {

/// An external program to run, with its arguments. The run succeeds when the
/// program exits with status zero.
#[derive(Debug, Clone, PartialEq, Eq)]
pub struct Command {
    pub program: String,
    pub args: Vec<String>,
}

/// Mathematical model of a [`Command`].
pub struct CommandView {
    pub program: Seq<char>,
    pub args: Seq<Seq<char>>,
}

impl View for Command {
    type V = CommandView;

    open spec fn view(&self) -> CommandView {
        CommandView { program: self.program@, args: self.args.deep_view() }
    }
}

impl DeepView for Command {
    type V = CommandView;

    open spec fn deep_view(&self) -> CommandView {
        self@
    }
}

/// One effect on the machine.
#[allow(inconsistent_fields)]
#[derive(Debug, Clone, PartialEq, Eq)]
pub enum Action {
    /// Create a directory and all of its parents; existing directories are kept.
    CreateDirAll { path: String },
    /// Create an empty file, truncating an existing one.
    CreateFile { path: String },
    /// Replace the contents of a file.
    WriteFile { path: String, contents: String },
    /// Replace the contents of a file by bytes.
    WriteBytes { path: String, contents: Vec<u8> },
    /// Copy a file over another.
    CopyFile { from: String, to: String },
    /// Remove a file if it exists.
    RemoveFile { path: String },
    /// Remove a directory tree if it exists.
    RemoveDirAll { path: String },
    /// Create a symbolic link at `link` that points to `original`.
    Symlink { original: String, link: String },
    /// Block until a path exists, polling without a time limit.
    WaitForPath { path: String },
    /// Change the working directory.
    SetWorkdir { path: String },
    /// Mount a filesystem.
    Mount { fstype: String, source: String, target: String, data: Option<String> },
    /// Unmount a filesystem, lazily and by force when the flags say so.
    Unmount { target: String, detach: bool, force: bool },
    /// Run a program and wait for it.
    Run { command: Command },
    /// Start a program and go on without waiting for it.
    Spawn { command: Command },
    /// Bind a UNIX socket and listen on it.
    SocketBind { path: String },
    /// Connect to a UNIX socket and send a payload.
    SocketSend { path: String, payload: Vec<u8> },
    /// Set the name of the host.
    SetHostname { name: String },
    /// Let time pass.
    Sleep { millis: u64 },
    /// Change the root directory of the process.
    Chroot { path: String },
    /// Replace the process image; does not return when it succeeds.
    Exec { program: String },
}

/// Mathematical model of an [`Action`].
#[allow(inconsistent_fields)]
pub enum ActionView {
    CreateDirAll { path: Seq<char> },
    CreateFile { path: Seq<char> },
    WriteFile { path: Seq<char>, contents: Seq<char> },
    WriteBytes { path: Seq<char>, contents: Seq<u8> },
    CopyFile { from: Seq<char>, to: Seq<char> },
    RemoveFile { path: Seq<char> },
    RemoveDirAll { path: Seq<char> },
    Symlink { original: Seq<char>, link: Seq<char> },
    WaitForPath { path: Seq<char> },
    SetWorkdir { path: Seq<char> },
    Mount { fstype: Seq<char>, source: Seq<char>, target: Seq<char>, data: Option<Seq<char>> },
    Unmount { target: Seq<char>, detach: bool, force: bool },
    Run { command: CommandView },
    Spawn { command: CommandView },
    SocketBind { path: Seq<char> },
    SocketSend { path: Seq<char>, payload: Seq<u8> },
    SetHostname { name: Seq<char> },
    Sleep { millis: u64 },
    Chroot { path: Seq<char> },
    Exec { program: Seq<char> },
}

impl View for Action {
    type V = ActionView;

    open spec fn view(&self) -> ActionView {
        match self {
            Action::CreateDirAll { path } => ActionView::CreateDirAll { path: path@ },
            Action::CreateFile { path } => ActionView::CreateFile { path: path@ },
            Action::WriteFile { path, contents } => ActionView::WriteFile {
                path: path@,
                contents: contents@,
            },
            Action::WriteBytes { path, contents } => ActionView::WriteBytes {
                path: path@,
                contents: contents@,
            },
            Action::CopyFile { from, to } => ActionView::CopyFile { from: from@, to: to@ },
            Action::RemoveFile { path } => ActionView::RemoveFile { path: path@ },
            Action::RemoveDirAll { path } => ActionView::RemoveDirAll { path: path@ },
            Action::Symlink { original, link } => ActionView::Symlink {
                original: original@,
                link: link@,
            },
            Action::WaitForPath { path } => ActionView::WaitForPath { path: path@ },
            Action::SetWorkdir { path } => ActionView::SetWorkdir { path: path@ },
            Action::Mount { fstype, source, target, data } => ActionView::Mount {
                fstype: fstype@,
                source: source@,
                target: target@,
                data: match data {
                    Some(d) => Some(d@),
                    None => None,
                },
            },
            Action::Unmount { target, detach, force } => ActionView::Unmount {
                target: target@,
                detach: *detach,
                force: *force,
            },
            Action::Run { command } => ActionView::Run { command: command@ },
            Action::Spawn { command } => ActionView::Spawn { command: command@ },
            Action::SocketBind { path } => ActionView::SocketBind { path: path@ },
            Action::SocketSend { path, payload } => ActionView::SocketSend {
                path: path@,
                payload: payload@,
            },
            Action::SetHostname { name } => ActionView::SetHostname { name: name@ },
            Action::Sleep { millis } => ActionView::Sleep { millis: *millis },
            Action::Chroot { path } => ActionView::Chroot { path: path@ },
            Action::Exec { program } => ActionView::Exec { program: program@ },
        }
    }
}

impl DeepView for Action {
    type V = ActionView;

    open spec fn deep_view(&self) -> ActionView {
        self@
    }
}

/// Model of running `program` with `args`.
pub open spec fn run(program: Seq<char>, args: Seq<Seq<char>>) -> ActionView {
    ActionView::Run { command: CommandView { program, args } }
}

/// Model of mounting `source` at `target` as `fstype`, without mount data.
pub open spec fn mount(fstype: Seq<char>, source: Seq<char>, target: Seq<char>) -> ActionView {
    ActionView::Mount { fstype, source, target, data: None }
}

/// Model of creating the directory `path`.
pub open spec fn create_dir_all(path: Seq<char>) -> ActionView {
    ActionView::CreateDirAll { path }
}

/// Model of a lazy, forced unmount of `target`.
pub open spec fn detach(target: Seq<char>) -> ActionView {
    ActionView::Unmount { target, detach: true, force: true }
}

/// Model of removing the directory tree at `path`.
pub open spec fn remove_dir_all(path: Seq<char>) -> ActionView {
    ActionView::RemoveDirAll { path }
}

impl Command {
    /// A command without arguments.
    pub fn new(program: &str) -> (command: Command)
        ensures
            command@.program == program@,
            command@.args == Seq::<Seq<char>>::empty(),
    {
        let command = Command { program: String::from_str(program), args: Vec::new() };
        assert(command.args.deep_view() =~= Seq::<Seq<char>>::empty());
        command
    }

    /// Appends one argument.
    pub fn arg(&mut self, arg: &str)
        ensures
            final(self)@.program == old(self)@.program,
            final(self)@.args == old(self)@.args.push(arg@),
    {
        self.args.push(String::from_str(arg));
        assert(self.args.deep_view() =~= old(self).args.deep_view().push(arg@));
    }

    /// Appends the arguments of `more`, in order.
    pub fn args(&mut self, more: &Vec<String>)
        ensures
            final(self)@.program == old(self)@.program,
            final(self)@.args == old(self)@.args + more.deep_view(),
    {
        let mut i: usize = 0;
        while i < more.len()
            invariant
                i <= more.len(),
                self@.program == old(self)@.program,
                self@.args == old(self)@.args + more.deep_view().take(i as int),
            decreases more.len() - i,
        {
            let ghost before = self@.args;
            self.arg(more[i].as_str());
            assert(more.deep_view().take(i + 1) =~= more.deep_view().take(i as int).push(
                more[i as int]@,
            ));
            assert(before.push(more[i as int]@) =~= old(self)@.args + more.deep_view().take(
                i + 1,
            ));
            i += 1;
        }
        assert(more.deep_view().take(more.len() as int) =~= more.deep_view());
    }
}

impl Action {
    /// The action that creates the directory `path`.
    pub fn mkdir(path: String) -> (action: Action)
        ensures
            action@ == create_dir_all(path@),
    {
        Action::CreateDirAll { path }
    }

    /// The action that mounts `source` at `target` as `fstype`, without data.
    pub fn mount_fs(fstype: &str, source: &str, target: String) -> (action: Action)
        ensures
            action@ == mount(fstype@, source@, target@),
    {
        Action::Mount {
            fstype: String::from_str(fstype),
            source: String::from_str(source),
            target,
            data: None,
        }
    }

    /// The action that unmounts `target` lazily and by force.
    pub fn force_unmount(target: String) -> (action: Action)
        ensures
            action@ == detach(target@),
    {
        Action::Unmount { target, detach: true, force: true }
    }

    /// The action that runs `command`.
    pub fn run_command(command: Command) -> (action: Action)
        ensures
            action@ == run(command@.program, command@.args),
    {
        Action::Run { command }
    }
}

/// Appends `more` to `plan`.
pub fn extend(plan: &mut Vec<Action>, more: Vec<Action>)
    ensures
        final(plan).deep_view() == old(plan).deep_view() + more.deep_view(),
{
    let mut more = more;
    let ghost added = more.deep_view();
    plan.append(&mut more);
    assert(plan.deep_view() =~= old(plan).deep_view() + added);
}

/// Appends one action to `plan`.
pub fn push_action(plan: &mut Vec<Action>, action: Action)
    ensures
        final(plan).deep_view() == old(plan).deep_view().push(action@),
{
    plan.push(action);
    assert(plan.deep_view() =~= old(plan).deep_view().push(action@));
}

} // verus!
