//! The Unix socket through which the game's chat reaches the messenger, and
//! the status route of the bridge.

use vstd::prelude::*;
use vstd::string::*;

use crate::backend::messenger::RealTimeMessage;

verus! {

/// The status that the bridge reports: "ok" and the time of the request in
/// seconds since the Unix epoch.
pub struct Status {
    pub status: String,
    pub timestamp: i64,
}

/// The answer of the status route at `now_secs` seconds since the Unix epoch.
pub fn chat(now_secs: u64) -> (s: Status)
    ensures
        s.status@ == "ok"@,
        s.timestamp == now_secs as i64,
{
    Status { status: String::from_str("ok"), timestamp: now_secs as i64 }
}

/// The path of the socket.
pub open spec fn socket_path_text() -> Seq<char> {
    "/tmp/minecraft_chat/chat.sock"@
}

/// The directory of the socket.
pub open spec fn socket_dir_text() -> Seq<char> {
    "/tmp/minecraft_chat"@
}

/// The path of the socket.
pub fn get_socket_path() -> (r: String)
    ensures
        r@ == socket_path_text(),
{
    String::from_str("/tmp/minecraft_chat/chat.sock")
}

/// The directory of the socket.
pub fn get_socket_dir() -> (r: String)
    ensures
        r@ == socket_dir_text(),
{
    String::from_str("/tmp/minecraft_chat")
}

/// At most this many bytes of a connection are read as its message.
pub const READ_BUFFER_LEN: usize = 1024;

/// The chat channel that the game's messages go to.
pub const MINECRAFT_CHANNEL: i32 = 1;

/// The permissions of the socket's directory (rwxr-xr-x).
pub const SOCKET_DIR_MODE: u32 = 0o755;

/// The permissions of the socket itself (rwxrwxrwx).
pub const SOCKET_MODE: u32 = 0o777;

/// A message from the game: who wrote it and what.
pub struct MinecraftMessage {
    pub player: String,
    pub content: String,
}

/// The bridge's answer to a message from the game.
pub struct Response {
    pub status: String,
}

/// The chat message that a message from the game becomes, received at
/// `received_millis` milliseconds since the Unix epoch: its author is
/// "minecraft" and its display name the player's.
pub fn minecraft_chat_message(msg: MinecraftMessage, received_millis: u128) -> (m: RealTimeMessage)
    ensures
        m.message_id == 0,
        m.user_id@ == "minecraft"@,
        m.display_name == msg.player,
        m.created_at == received_millis as i64,
        m.content == msg.content,
{
    RealTimeMessage {
        message_id: 0,
        user_id: String::from_str("minecraft"),
        display_name: msg.player,
        created_at: received_millis as i64,
        content: msg.content,
    }
}

/// The answer to every message from the game that was forwarded: "ok".
pub fn minecraft_reply() -> (r: Response)
    ensures
        r.status@ == "ok"@,
{
    Response { status: String::from_str("ok") }
}

/// One step of preparing the socket.
pub enum SetupStep {
    CreateDir { path: String },
    SetMode { path: String, mode: u32 },
    RemoveFile { path: String },
    Bind { path: String },
}

/// A step of preparing the socket, as plain values.
pub enum SetupStepView {
    CreateDir { path: Seq<char> },
    SetMode { path: Seq<char>, mode: u32 },
    RemoveFile { path: Seq<char> },
    Bind { path: Seq<char> },
}

impl View for SetupStep {
    type V = SetupStepView;

    open spec fn view(&self) -> SetupStepView {
        match self {
            SetupStep::CreateDir { path } => SetupStepView::CreateDir { path: path@ },
            SetupStep::SetMode { path, mode } => SetupStepView::SetMode { path: path@, mode: *mode },
            SetupStep::RemoveFile { path } => SetupStepView::RemoveFile { path: path@ },
            SetupStep::Bind { path } => SetupStepView::Bind { path: path@ },
        }
    }
}

/// The views of a list of steps.
pub open spec fn step_views(steps: Seq<SetupStep>) -> Seq<SetupStepView> {
    steps.map_values(|s: SetupStep| s@)
}

/// Preparing the socket's directory: when it does not exist, create it and
/// give it mode 0o755; otherwise nothing.
pub open spec fn dir_steps(dir_exists: bool) -> Seq<SetupStepView> {
    if dir_exists {
        Seq::empty()
    } else {
        seq![
            SetupStepView::CreateDir { path: socket_dir_text() },
            SetupStepView::SetMode { path: socket_dir_text(), mode: SOCKET_DIR_MODE },
        ]
    }
}

/// Preparing the socket: its directory, then removing a stale socket file,
/// then binding the socket and giving it mode 0o777.
pub open spec fn socket_steps(dir_exists: bool, socket_exists: bool) -> Seq<SetupStepView> {
    dir_steps(dir_exists) + (if socket_exists {
        seq![SetupStepView::RemoveFile { path: socket_path_text() }]
    } else {
        Seq::empty()
    }) + seq![
        SetupStepView::Bind { path: socket_path_text() },
        SetupStepView::SetMode { path: socket_path_text(), mode: SOCKET_MODE },
    ]
}

/// Preparing the socket always ends with binding the socket at its path and
/// then opening its permissions to 0o777; before that it creates the
/// directory with 0o755 exactly when the directory is missing, and removes
/// the socket file exactly when one is left over.
pub proof fn lemma_socket_steps_shape(dir_exists: bool, socket_exists: bool)
    ensures
        ({
            let v = socket_steps(dir_exists, socket_exists);
            &&& v.len() == (if dir_exists { 0int } else { 2int }) + (if socket_exists { 1int } else { 0int }) + 2
            &&& v[v.len() - 2] == SetupStepView::Bind { path: "/tmp/minecraft_chat/chat.sock"@ }
            &&& v[v.len() - 1] == SetupStepView::SetMode {
                path: "/tmp/minecraft_chat/chat.sock"@,
                mode: 0o777,
            }
            &&& !dir_exists ==> v[0] == SetupStepView::CreateDir { path: "/tmp/minecraft_chat"@ }
                && v[1] == SetupStepView::SetMode { path: "/tmp/minecraft_chat"@, mode: 0o755 }
            &&& socket_exists ==> v[v.len() - 3] == SetupStepView::RemoveFile {
                path: "/tmp/minecraft_chat/chat.sock"@,
            }
        }),
{
}

fn push_dir_steps(steps: &mut Vec<SetupStep>, dir_exists: bool)
    ensures
        step_views(final(steps)@) == step_views(old(steps)@) + dir_steps(dir_exists),
{
    let ghost before = step_views(steps@);
    if !dir_exists {
        steps.push(SetupStep::CreateDir { path: get_socket_dir() });
        steps.push(SetupStep::SetMode { path: get_socket_dir(), mode: SOCKET_DIR_MODE });
    }
    assert(step_views(steps@) =~= before + dir_steps(dir_exists));
}

/// What preparing the socket's directory takes, given whether it exists.
pub fn init_socket_steps(dir_exists: bool) -> (r: Vec<SetupStep>)
    ensures
        step_views(r@) == dir_steps(dir_exists),
{
    let mut steps: Vec<SetupStep> = Vec::new();
    push_dir_steps(&mut steps, dir_exists);
    assert(step_views(Seq::<SetupStep>::empty()) =~= Seq::<SetupStepView>::empty());
    assert(Seq::<SetupStepView>::empty() + dir_steps(dir_exists) =~= dir_steps(dir_exists));
    steps
}

/// What preparing the socket takes, given whether its directory and a
/// socket file exist.
pub fn socket_setup_steps(dir_exists: bool, socket_exists: bool) -> (r: Vec<SetupStep>)
    ensures
        step_views(r@) == socket_steps(dir_exists, socket_exists),
        r@.len() >= 2,
        r@[r@.len() - 2]@ == (SetupStepView::Bind { path: "/tmp/minecraft_chat/chat.sock"@ }),
        r@[r@.len() - 1]@ == (SetupStepView::SetMode {
            path: "/tmp/minecraft_chat/chat.sock"@,
            mode: 0o777,
        }),
{
    let mut steps = init_socket_steps(dir_exists);
    let ghost after_dir = step_views(steps@);
    if socket_exists {
        steps.push(SetupStep::RemoveFile { path: get_socket_path() });
    }
    steps.push(SetupStep::Bind { path: get_socket_path() });
    steps.push(SetupStep::SetMode { path: get_socket_path(), mode: SOCKET_MODE });
    assert(step_views(steps@) =~= socket_steps(dir_exists, socket_exists));
    proof {
        lemma_socket_steps_shape(dir_exists, socket_exists);
        let v = step_views(steps@);
        assert(v[v.len() - 2] == steps@[steps@.len() - 2]@);
        assert(v[v.len() - 1] == steps@[steps@.len() - 1]@);
    }
    steps
}

} // verus!
