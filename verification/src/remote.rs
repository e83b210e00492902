//! Work on a host reached over SSH: running a command there, creating the
//! directories that a secret goes into, and placing a secret.
use crate::config::Secret;
use russh::keys::PrivateKey;
use russh::keys::PrivateKeyWithHashAlg;
use std::sync::Arc;
use vstd::prelude::*;
use vstd::string::*;

verus! {

/// A message on the channel of a command run on the host.
#[derive(Debug)]
pub enum ChannelEvent {
    /// Bytes the command wrote to its standard output.
    Data(Vec<u8>),
    /// Bytes the command wrote to another stream, such as standard error.
    ExtendedData(Vec<u8>),
    /// The command's exit status.
    ExitStatus(u32),
    /// Any other message.
    Other,
}

pub enum ChannelEventView {
    Data(Seq<u8>),
    ExtendedData(Seq<u8>),
    ExitStatus(u32),
    Other,
}

impl View for ChannelEvent {
    type V = ChannelEventView;

    open spec fn view(&self) -> ChannelEventView {
        match self {
            ChannelEvent::Data(d) => ChannelEventView::Data(d@),
            ChannelEvent::ExtendedData(d) => ChannelEventView::ExtendedData(d@),
            ChannelEvent::ExitStatus(c) => ChannelEventView::ExitStatus(*c),
            ChannelEvent::Other => ChannelEventView::Other,
        }
    }
}

/// What has been learned of a command run on the host: its standard output
/// so far, and its exit status if one was reported.
pub struct RemoteCommandRun {
    output: Vec<u8>,
    exit_code: Option<u32>,
}

impl View for RemoteCommandRun {
    type V = (Seq<u8>, Option<u32>);

    closed spec fn view(&self) -> (Seq<u8>, Option<u32>) {
        (self.output@, self.exit_code)
    }
}

/// What is known of a run after one more channel message.
pub open spec fn observe_spec(run: (Seq<u8>, Option<u32>), event: ChannelEventView) -> (
    Seq<u8>,
    Option<u32>,
) {
    match event {
        ChannelEventView::Data(d) => (run.0 + d, run.1),
        ChannelEventView::ExitStatus(c) => (run.0, Some(c)),
        _ => run,
    }
}

/// What is known of a run after the channel messages `events`, in order.
pub open spec fn run_after(events: Seq<ChannelEventView>) -> (Seq<u8>, Option<u32>)
    decreases events.len(),
{
    if events.len() == 0 {
        (Seq::empty(), None)
    } else {
        observe_spec(run_after(events.drop_last()), events.last())
    }
}

/// Why a command run on the host failed.
#[derive(Debug)]
pub enum RemoteCommandError {
    /// The command exited with a status other than 0; `output` is what it
    /// wrote to its standard output.
    Failed { command: String, code: u32, output: Vec<u8> },
    /// The channel closed without reporting an exit status.
    NoExitStatus { command: String },
}

pub enum RemoteCommandErrorView {
    Failed { command: Seq<char>, code: u32, output: Seq<u8> },
    NoExitStatus { command: Seq<char> },
}

impl View for RemoteCommandError {
    type V = RemoteCommandErrorView;

    open spec fn view(&self) -> RemoteCommandErrorView {
        match self {
            RemoteCommandError::Failed { command, code, output } => RemoteCommandErrorView::Failed {
                command: command@,
                code: *code,
                output: output@,
            },
            RemoteCommandError::NoExitStatus { command } => RemoteCommandErrorView::NoExitStatus {
                command: command@,
            },
        }
    }
}

/// The result of the run of `command` once its channel has closed.
pub open spec fn run_result(run: (Seq<u8>, Option<u32>), command: Seq<char>) -> Result<
    (),
    RemoteCommandErrorView,
> {
    match run.1 {
        Some(0) => Ok(()),
        Some(code) => Err(RemoteCommandErrorView::Failed { command, code, output: run.0 }),
        None => Err(RemoteCommandErrorView::NoExitStatus { command }),
    }
}

impl RemoteCommandRun {
    /// A run of which nothing is known yet.
    pub fn new() -> (run: Self)
        ensures
            run@ == run_after(Seq::empty()),
    {
        RemoteCommandRun { output: Vec::new(), exit_code: None }
    }

    /// Takes one channel message into account: standard output is kept in
    /// order, the last exit status reported counts, the rest is ignored.
    pub fn observe(&mut self, event: ChannelEvent)
        ensures
            final(self)@ == observe_spec(old(self)@, event@),
    {
        match event {
            ChannelEvent::Data(d) => {
                let mut d = d;
                self.output.append(&mut d);
            },
            ChannelEvent::ExitStatus(c) => {
                self.exit_code = Some(c);
            },
            _ => {},
        }
    }

    /// The result of running `command`, once its channel has closed.
    pub fn finish(self, command: &str) -> (res: Result<(), RemoteCommandError>)
        ensures
            match (res, run_result(self@, command@)) {
                (Ok(()), Ok(())) => true,
                (Err(e), Err(v)) => e@ == v,
                _ => false,
            },
    {
        match self.exit_code {
            Some(0) => Ok(()),
            Some(code) => Err(
                RemoteCommandError::Failed {
                    command: String::from_str(command),
                    code,
                    output: self.output,
                },
            ),
            None => Err(RemoteCommandError::NoExitStatus { command: String::from_str(command) }),
        }
    }
}

/// The exit status that counts is the last one reported: a run has status
/// `code` exactly when some message reported `code` and no later message
/// reported another status, and it has none when no message reported one.
pub proof fn lemma_last_exit_status_counts(events: Seq<ChannelEventView>, code: u32)
    ensures
        run_after(events).1 == Some(code) <==> exists|i: int|
            0 <= i < events.len() && events[i] == ChannelEventView::ExitStatus(code) && forall|
                j: int,
            |
                i < j < events.len() ==> !(#[trigger] events[j] is ExitStatus),
        run_after(events).1 is None <==> forall|i: int|
            0 <= i < events.len() ==> !(#[trigger] events[i] is ExitStatus),
    decreases events.len(),
{
    if events.len() > 0 {
        let init = events.drop_last();
        let n = events.len() - 1;
        lemma_last_exit_status_counts(init, code);
        if events.last() is ExitStatus {
            if run_after(events).1 == Some(code) {
                assert(events[n] == ChannelEventView::ExitStatus(code));
            }
            assert(!(forall|i: int| 0 <= i < events.len() ==> !(#[trigger] events[i] is ExitStatus)));
            if exists|i: int|
                0 <= i < events.len() && events[i] == ChannelEventView::ExitStatus(code) && forall|
                    j: int,
                |
                    i < j < events.len() ==> !(#[trigger] events[j] is ExitStatus) {
                let i = choose|i: int|
                    0 <= i < events.len() && events[i] == ChannelEventView::ExitStatus(code)
                        && forall|j: int| i < j < events.len() ==> !(#[trigger] events[j] is ExitStatus);
                assert(i == n);
            }
        } else {
            assert(run_after(events).1 == run_after(init).1);
            if run_after(init).1 == Some(code) {
                let i = choose|i: int|
                    0 <= i < init.len() && init[i] == ChannelEventView::ExitStatus(code) && forall|
                        j: int,
                    |
                        i < j < init.len() ==> !(#[trigger] init[j] is ExitStatus);
                assert(events[i] == init[i]);
                assert forall|j: int| i < j < events.len() implies !(#[trigger] events[j] is ExitStatus) by {
                    if j < n {
                        assert(events[j] == init[j]);
                    }
                }
            }
            if exists|i: int|
                0 <= i < events.len() && events[i] == ChannelEventView::ExitStatus(code) && forall|
                    j: int,
                |
                    i < j < events.len() ==> !(#[trigger] events[j] is ExitStatus) {
                let i = choose|i: int|
                    0 <= i < events.len() && events[i] == ChannelEventView::ExitStatus(code)
                        && forall|j: int| i < j < events.len() ==> !(#[trigger] events[j] is ExitStatus);
                assert(i < n);
                assert(init[i] == events[i]);
                assert forall|j: int| i < j < init.len() implies !(#[trigger] init[j] is ExitStatus) by {
                    assert(events[j] == init[j]);
                }
            }
            assert forall|i: int| 0 <= i < init.len() implies (init[i] == events[i]) by {}
        }
    }
}

/// A command run on the host succeeds exactly when the last exit status its
/// channel reported is 0.
pub proof fn lemma_success_iff_last_status_zero(events: Seq<ChannelEventView>, command: Seq<char>)
    ensures
        run_result(run_after(events), command) is Ok <==> exists|i: int|
            0 <= i < events.len() && events[i] == ChannelEventView::ExitStatus(0) && forall|j: int|
                i < j < events.len() ==> !(#[trigger] events[j] is ExitStatus),
{
    lemma_last_exit_status_counts(events, 0);
}

/// What `std::path::Path::parent` returns for the path with this text.
pub uninterp spec fn path_parent_spec(path: Seq<char>) -> Option<Seq<char>>;

/// Calls `std::path::Path::parent` on `path`.  std documents the parent as
/// the path without its final component, so it is shorter than the path;
/// it is a prefix of a UTF-8 path ending at a component, so converting it
/// back to text loses nothing.
#[verifier::external_body]
fn path_parent(path: &str) -> (parent: Option<String>)
    ensures
        match parent {
            Some(q) => path_parent_spec(path@) == Some(q@) && q@.len() < path@.len(),
            None => path_parent_spec(path@) is None,
        },
{
    std::path::Path::new(path).parent().map(|q| q.to_string_lossy().into_owned())
}

/// `chain` lists `path` and then each parent of the previous entry, up to
/// the first one that has no parent.
pub open spec fn is_ancestry(chain: Seq<Seq<char>>, path: Seq<char>) -> bool {
    &&& chain.len() > 0
    &&& chain[0] == path
    &&& forall|i: int| 0 <= i < chain.len() - 1 ==> path_parent_spec(#[trigger] chain[i]) == Some(chain[i + 1])
    &&& path_parent_spec(chain.last()) is None
}

/// A path has one chain of ancestors.
pub proof fn lemma_ancestry_unique(a: Seq<Seq<char>>, b: Seq<Seq<char>>, path: Seq<char>)
    requires
        is_ancestry(a, path),
        is_ancestry(b, path),
    ensures
        a == b,
{
    assert forall|i: int| 0 <= i < a.len() && 0 <= i < b.len() implies a[i] == b[i] by {
        lemma_ancestry_agree(a, b, path, i);
    }
    if a.len() < b.len() {
        lemma_ancestry_agree(a, b, path, a.len() - 1);
        assert(path_parent_spec(b[a.len() - 1]) == Some(b[a.len() as int]));
    } else if b.len() < a.len() {
        lemma_ancestry_agree(a, b, path, b.len() - 1);
        assert(path_parent_spec(a[b.len() - 1]) == Some(a[b.len() as int]));
    }
    assert(a =~= b);
}

proof fn lemma_ancestry_agree(a: Seq<Seq<char>>, b: Seq<Seq<char>>, path: Seq<char>, i: int)
    requires
        is_ancestry(a, path),
        is_ancestry(b, path),
        0 <= i < a.len(),
        0 <= i < b.len(),
    ensures
        a[i] == b[i],
    decreases i,
{
    if i > 0 {
        lemma_ancestry_agree(a, b, path, i - 1);
        assert(path_parent_spec(a[i - 1]) == Some(a[i]));
        assert(path_parent_spec(b[i - 1]) == Some(b[i]));
    }
}

/// How to make sure a directory exists on the host.
#[derive(Debug)]
pub enum DirectoryPlan {
    /// Run this command, which creates the directory and its missing
    /// ancestors with administrator rights.
    Sudo { command: String },
    /// Over SFTP, create each of these directories that does not exist yet,
    /// in this order.
    EachMissing { dirs: Vec<String> },
}

pub enum DirectoryPlanView {
    Sudo { command: Seq<char> },
    EachMissing { dirs: Seq<Seq<char>> },
}

impl View for DirectoryPlan {
    type V = DirectoryPlanView;

    open spec fn view(&self) -> DirectoryPlanView {
        match self {
            DirectoryPlan::Sudo { command } => DirectoryPlanView::Sudo { command: command@ },
            DirectoryPlan::EachMissing { dirs } => DirectoryPlanView::EachMissing {
                dirs: dirs@.map_values(|d: String| d@),
            },
        }
    }
}

/// Whether `plan` makes sure that `dir` exists: with administrator rights
/// one `mkdir -p` does it; otherwise each ancestor of `dir` below the
/// outermost one is checked, outermost first, and `dir` itself last.
pub open spec fn is_directory_plan(plan: DirectoryPlanView, dir: Seq<char>, root: bool) -> bool {
    if root {
        plan == DirectoryPlanView::Sudo { command: "sudo mkdir -p "@ + dir }
    } else {
        exists|chain: Seq<Seq<char>>|
            is_ancestry(chain, dir) && #[trigger] chain.reverse().drop_first() == (plan->EachMissing_dirs) && plan is EachMissing
    }
}

/// The steps that make sure `dir` exists on the host.
pub fn directory_plan(dir: &str, root: bool) -> (plan: DirectoryPlan)
    ensures
        is_directory_plan(plan@, dir@, root),
{
    if root {
        return DirectoryPlan::Sudo { command: String::from_str("sudo mkdir -p ").concat(dir) };
    }
    let mut chain: Vec<String> = Vec::new();
    chain.push(String::from_str(dir));
    loop
        invariant
            chain@.len() > 0,
            chain@[0]@ == dir@,
            forall|i: int|
                0 <= i < chain@.len() - 1 ==> path_parent_spec(#[trigger] chain@[i]@) == Some(
                    chain@[i + 1]@,
                ),
        ensures
            chain@.len() > 0,
            chain@[0]@ == dir@,
            forall|i: int|
                0 <= i < chain@.len() - 1 ==> path_parent_spec(#[trigger] chain@[i]@) == Some(
                    chain@[i + 1]@,
                ),
            path_parent_spec(chain@.last()@) is None,
        decreases chain@.last()@.len(),
    {
        let n = chain.len();
        match path_parent(chain[n - 1].as_str()) {
            Some(q) => {
                chain.push(q);
            },
            None => {
                break ;
            },
        }
    }
    let ghost cv = chain@.map_values(|d: String| d@);
    assert(is_ancestry(cv, dir@));
    let mut dirs: Vec<String> = Vec::new();
    let mut k: usize = chain.len() - 1;
    while k > 0
        invariant
            k < chain@.len(),
            cv == chain@.map_values(|d: String| d@),
            dirs@.len() == chain@.len() - 1 - k,
            forall|j: int| 0 <= j < dirs@.len() ==> #[trigger] dirs@[j]@ == cv[chain@.len() - 2 - j],
        decreases k,
    {
        k = k - 1;
        dirs.push(chain[k].clone());
    }
    let ghost dv = dirs@.map_values(|d: String| d@);
    assert(dv =~= cv.reverse().drop_first());
    DirectoryPlan::EachMissing { dirs }
}

/// The directory that the secret's target path lies in, and the steps that
/// make sure it exists; `None` when the target path has no parent.
pub fn target_directory_plan(secret: &Secret, root: bool) -> (res: Option<(String, DirectoryPlan)>)
    ensures
        match res {
            Some((dir, plan)) => path_parent_spec(secret.target_path@) == Some(dir@)
                && is_directory_plan(plan@, dir@, root),
            None => path_parent_spec(secret.target_path@) is None,
        },
{
    match path_parent(secret.target_path.as_str()) {
        Some(dir) => {
            let plan = directory_plan(dir.as_str(), root);
            Some((dir, plan))
        },
        None => None,
    }
}

/// What `std::path::Path::file_name` returns for the path with this text.
pub uninterp spec fn path_file_name_spec(path: Seq<char>) -> Option<Seq<char>>;

/// Calls `std::path::Path::file_name` on `path`: its final component, if
/// there is one.  A component of a UTF-8 path is UTF-8, so converting it
/// back to text loses nothing.
#[verifier::external_body]
fn path_file_name(path: &str) -> (name: Option<String>)
    ensures
        match name {
            Some(n) => path_file_name_spec(path@) == Some(n@),
            None => path_file_name_spec(path@) is None,
        },
{
    std::path::Path::new(path).file_name().map(|n| n.to_string_lossy().into_owned())
}

/// Whether `c` is a lower-case hexadecimal digit.
pub open spec fn is_lower_hex(c: char) -> bool {
    ('0' <= c && c <= '9') || ('a' <= c && c <= 'f')
}

/// The hyphenated lower-case text of a random (version 4) UUID: 32
/// hexadecimal digits in groups of 8, 4, 4, 4 and 12, separated by `-`, with
/// the version digit `4` opening the third group and the variant digit
/// (`8`, `9`, `a` or `b`) opening the fourth.
pub open spec fn is_uuid_text(s: Seq<char>) -> bool {
    &&& s.len() == 36
    &&& forall|i: int|
        0 <= i < 36 ==> if i == 8 || i == 13 || i == 18 || i == 23 {
            #[trigger] s[i] == '-'
        } else {
            is_lower_hex(s[i])
        }
    &&& s[14] == '4'
    &&& (s[19] == '8' || s[19] == '9' || s[19] == 'a' || s[19] == 'b')
}

/// Calls `uuid::Uuid::new_v4` and renders the UUID with its `Display` impl,
/// which writes the hyphenated lower-case form.  `new_v4` sets the version
/// bits to 4 and the variant bits to `10`.  The value is random; the
/// call panics only if the operating system cannot supply random bytes.
#[verifier::external_body]
fn fresh_upload_id() -> (id: String)
    ensures
        is_uuid_text(id@),
{
    uuid::Uuid::new_v4().to_string()
}

/// One step of placing a secret on a host.
#[derive(Debug)]
pub enum InstallStep {
    /// Run the local shell command whose output is the secret.
    RunLocal { command: String },
    /// Create this directory over SFTP.
    CreateDir { path: String },
    /// Create this empty file over SFTP.
    CreateFile { path: String },
    /// Write the output of the local command into this file over SFTP.
    WriteSecret { path: String },
    /// Run this command on the host.
    Remote { command: String },
    /// Remove this directory over SFTP.
    RemoveDir { path: String },
}

pub enum InstallStepView {
    RunLocal { command: Seq<char> },
    CreateDir { path: Seq<char> },
    CreateFile { path: Seq<char> },
    WriteSecret { path: Seq<char> },
    Remote { command: Seq<char> },
    RemoveDir { path: Seq<char> },
}

impl View for InstallStep {
    type V = InstallStepView;

    open spec fn view(&self) -> InstallStepView {
        match self {
            InstallStep::RunLocal { command } => InstallStepView::RunLocal { command: command@ },
            InstallStep::CreateDir { path } => InstallStepView::CreateDir { path: path@ },
            InstallStep::CreateFile { path } => InstallStepView::CreateFile { path: path@ },
            InstallStep::WriteSecret { path } => InstallStepView::WriteSecret { path: path@ },
            InstallStep::Remote { command } => InstallStepView::Remote { command: command@ },
            InstallStep::RemoveDir { path } => InstallStepView::RemoveDir { path: path@ },
        }
    }
}

/// The private directory a secret is uploaded into before it is moved.
pub open spec fn upload_dir(upload_id: Seq<char>) -> Seq<char> {
    "/tmp/"@ + upload_id
}

/// The file a secret named `name` is uploaded to.
pub open spec fn upload_path(upload_id: Seq<char>, name: Seq<char>) -> Seq<char> {
    upload_dir(upload_id) + "/"@ + name
}

/// The prefix of the commands run on the host.
pub open spec fn privilege_prefix(root: bool) -> Seq<char> {
    if root {
        "sudo "@
    } else {
        ""@
    }
}

/// The steps that place the secret produced by `command` at `target`, whose
/// file name is `name`, going through the upload directory `upload_id`:
/// produce the secret, upload it into a fresh directory, move it into
/// place, remove the directory, make the secret readable by its owner only,
/// and with administrator rights give it to `root`.
pub open spec fn install_steps(
    command: Seq<char>,
    target: Seq<char>,
    name: Seq<char>,
    upload_id: Seq<char>,
    root: bool,
) -> Seq<InstallStepView> {
    let dir = upload_dir(upload_id);
    let path = upload_path(upload_id, name);
    let sudo = privilege_prefix(root);
    let steps = seq![
        InstallStepView::RunLocal { command },
        InstallStepView::CreateDir { path: dir },
        InstallStepView::CreateFile { path },
        InstallStepView::WriteSecret { path },
        InstallStepView::Remote { command: sudo + "mv "@ + path + " "@ + target },
        InstallStepView::RemoveDir { path: dir },
        InstallStepView::Remote { command: sudo + "chmod 0400 "@ + target },
    ];
    if root {
        steps.push(InstallStepView::Remote { command: "sudo chown root:root "@ + target })
    } else {
        steps
    }
}

/// The shape of every placement, for every upload id: produce the secret
/// locally; create `/tmp/<id>`; create and fill `/tmp/<id>/<name>`; move
/// that file onto the target; remove `/tmp/<id>`; make the target readable
/// by its owner only; and, exactly with administrator rights, make `root`
/// its owner as the last step.  Every command on the host runs under `sudo`
/// exactly when administrator rights are used.  For a UUID upload id the
/// upload directory is a direct child of `/tmp`.
pub proof fn lemma_install_steps_shape(
    command: Seq<char>,
    target: Seq<char>,
    name: Seq<char>,
    upload_id: Seq<char>,
    root: bool,
)
    ensures
        ({
            let steps = install_steps(command, target, name, upload_id, root);
            let dir = "/tmp/"@ + upload_id;
            let file = "/tmp/"@ + upload_id + "/"@ + name;
            let sudo = if root { "sudo "@ } else { ""@ };
            &&& upload_dir(upload_id) == dir
            &&& upload_path(upload_id, name) == file
            &&& privilege_prefix(root) == sudo
            &&& steps.len() == if root { 8int } else { 7int }
            &&& steps[0] == InstallStepView::RunLocal { command }
            &&& steps[1] == InstallStepView::CreateDir { path: dir }
            &&& steps[2] == InstallStepView::CreateFile { path: file }
            &&& steps[3] == InstallStepView::WriteSecret { path: file }
            &&& steps[4] == InstallStepView::Remote { command: sudo + "mv "@ + file + " "@ + target }
            &&& steps[5] == InstallStepView::RemoveDir { path: dir }
            &&& steps[6] == InstallStepView::Remote { command: sudo + "chmod 0400 "@ + target }
            &&& root ==> steps[7] == InstallStepView::Remote {
                command: "sudo chown root:root "@ + target,
            }
            &&& root ==> steps.last() == InstallStepView::Remote {
                command: "sudo chown root:root "@ + target,
            }
            &&& file.subrange(0, dir.len() as int) == dir
            &&& is_uuid_text(upload_id) ==> forall|i: int|
                0 <= i < upload_id.len() ==> #[trigger] upload_id[i] != '/'
        }),
{
    let dir = upload_dir(upload_id);
    assert(upload_path(upload_id, name).subrange(0, dir.len() as int) =~= dir);
    if is_uuid_text(upload_id) {
        assert forall|i: int| 0 <= i < upload_id.len() implies #[trigger] upload_id[i] != '/' by {
            if i == 8 || i == 13 || i == 18 || i == 23 {
            } else {
                assert(is_lower_hex(upload_id[i]));
            }
        }
    }
}

/// Why a secret cannot be placed.
#[derive(Debug, PartialEq, Eq, Structural)]
pub enum SecretError {
    /// Its target path has no file name.
    NoFileName,
}

impl SecretError {
    /// The message this error is reported with.
    pub fn message(&self) -> (m: String)
        ensures
            m@ == "Error extracting name from secret target path"@,
    {
        String::from_str("Error extracting name from secret target path")
    }
}

/// The steps that place `secret` on a host, uploading through the directory
/// named by `upload_id`; an error when the target path has no file name.
pub fn install_plan(secret: &Secret, upload_id: &str, root: bool) -> (res: Result<
    Vec<InstallStep>,
    SecretError,
>)
    ensures
        res is Err <==> path_file_name_spec(secret.target_path@) is None,
        res matches Err(e) ==> e == SecretError::NoFileName,
        res matches Ok(steps) ==> steps@.map_values(|s: InstallStep| s@) == install_steps(
            secret.command@,
            secret.target_path@,
            path_file_name_spec(secret.target_path@)->0,
            upload_id@,
            root,
        ),
{
    let name = match path_file_name(secret.target_path.as_str()) {
        Some(n) => n,
        None => {
            return Err(SecretError::NoFileName);
        },
    };
    let target = secret.target_path.as_str();
    let dir = String::from_str("/tmp/").concat(upload_id);
    let path = dir.clone().concat("/").concat(name.as_str());
    let sudo: &str = if root {
        "sudo "
    } else {
        ""
    };
    let mut steps: Vec<InstallStep> = Vec::new();
    steps.push(InstallStep::RunLocal { command: secret.command.clone() });
    steps.push(InstallStep::CreateDir { path: dir.clone() });
    steps.push(InstallStep::CreateFile { path: path.clone() });
    steps.push(InstallStep::WriteSecret { path: path.clone() });
    steps.push(
        InstallStep::Remote {
            command: String::from_str(sudo).concat("mv ").concat(path.as_str()).concat(" ").concat(
                target,
            ),
        },
    );
    steps.push(InstallStep::RemoveDir { path: dir });
    steps.push(
        InstallStep::Remote {
            command: String::from_str(sudo).concat("chmod 0400 ").concat(target),
        },
    );
    if root {
        steps.push(
            InstallStep::Remote { command: String::from_str("sudo chown root:root ").concat(target) },
        );
    }
    let ghost expected = install_steps(
        secret.command@,
        secret.target_path@,
        name@,
        upload_id@,
        root,
    );
    assert(steps@.map_values(|s: InstallStep| s@) =~= expected);
    Ok(steps)
}

/// The steps that place `secret` on a host, through a fresh upload directory
/// named by a random UUID; an error when the target path has no file name.
pub fn secret_install_plan(secret: &Secret, root: bool) -> (res: Result<
    Vec<InstallStep>,
    SecretError,
>)
    ensures
        res is Err <==> path_file_name_spec(secret.target_path@) is None,
        res matches Ok(steps) ==> exists|upload_id: Seq<char>|
            is_uuid_text(upload_id) && steps@.map_values(|s: InstallStep| s@) == #[trigger] install_steps(
                secret.command@,
                secret.target_path@,
                path_file_name_spec(secret.target_path@)->0,
                upload_id,
                root,
            ),
{
    let upload_id = fresh_upload_id();
    install_plan(secret, upload_id.as_str(), root)
}

#[verifier::external_type_specification]
#[verifier::external_body]
pub struct ExPrivateKey(russh::keys::PrivateKey);

#[verifier::external_type_specification]
#[verifier::external_body]
pub struct ExPrivateKeyWithHashAlg(russh::keys::PrivateKeyWithHashAlg);

#[verifier::external_type_specification]
#[verifier::external_body]
pub struct ExKeyError(russh::keys::Error);

/// Whether `russh::keys::decode_secret_key` accepts this text without a
/// password.
pub uninterp spec fn secret_key_decodes(text: Seq<char>) -> bool;

/// Calls `russh::keys::decode_secret_key` on `text` without a password; it
/// parses the text alone, so whether it succeeds depends on the text alone.
/// Which key it yields is not stated: the key is opaque here.
#[verifier::external_body]
fn decode_secret_key(text: &str) -> (res: Result<PrivateKey, russh::keys::Error>)
    ensures
        res is Ok <==> secret_key_decodes(text@),
{
    russh::keys::decode_secret_key(text, None)
}

/// Calls `russh::keys::PrivateKeyWithHashAlg::new` with no hash algorithm,
/// which for RSA keys means the legacy SHA-1 signatures and for other keys
/// has no effect.
#[verifier::external_body]
fn key_for_authentication(key: PrivateKey) -> (res: PrivateKeyWithHashAlg) {
    PrivateKeyWithHashAlg::new(Arc::new(key), None)
}

/// Why the private key for logging in to a host cannot be used.
pub enum KeyError {
    /// The key text could not be decoded; `reason` says why.
    Undecodable { reason: russh::keys::Error },
}

/// The private key to log in with, from the text that the key's command
/// printed.
pub fn client_key_from_text(text: &str) -> (res: Result<PrivateKeyWithHashAlg, KeyError>)
    ensures
        res is Ok <==> secret_key_decodes(text@),
{
    match decode_secret_key(text) {
        Ok(key) => Ok(key_for_authentication(key)),
        Err(reason) => Err(KeyError::Undecodable { reason }),
    }
}

/// The port SSH connections go to.
pub const SSH_PORT: u16 = 22;

} // verus!
