//! The loader's window, as far as it decides: which message leads to which
//! change and to which work for the program around it.

use crate::api::{
    pubkey_of, servers_of, ApiRequest, ApiResponse, MasterServerApi, Method, Server,
};
use crate::error::LoaderError;
use crate::launch::{Launcher, PatchStep};
use crate::localize::{fail_reason_text, Localization};
use crate::patch::{
    game_runs, is_game_pid, is_patch_for, oversize_field, utf16_le, MemoryPatch, Patches,
    ProcessEntry, GAME_PROCESS_NAME, SERVER_INFO_PATCH_SIZE,
};
use crate::widgets::list::{
    first_with_id, has_id, has_room, is_updated, same_list, ListAction, ListMessage, RowMessage,
    ServerList, ServerRow,
};
use crate::widgets::topbar::TopBarMessage;
use vstd::prelude::*;
use vstd::string::StringExecFns;
use vstd::utf8::encode_utf8;

verus! {

/// The failures that the window reports to the user.
#[derive(Debug, Clone, Copy, PartialEq, Eq, Hash, Structural)]
pub enum FailReason {
    ChooseFileFail,
    RefreshListFail,
    ListNoSelected,
    FetchPublicKeyFail,
    ProcessNotFound,
    PatchFail,
}

/// The symbols of the window's buttons.
#[derive(Debug, Clone, Copy, PartialEq, Eq, Structural)]
pub enum Icon {
    Refresh,
    TrashBinLight,
    TrashBinDark,
    OpenFolder,
    PlayLight,
    PlayDark,
}

impl Icon {
    /// The character of the icon font that draws this symbol.
    pub open spec fn spec_glyph(self) -> Seq<char> {
        match self {
            Icon::Refresh => "\u{E800}"@,
            Icon::TrashBinLight => "\u{E801}"@,
            Icon::TrashBinDark => "\u{E802}"@,
            Icon::OpenFolder => "\u{E804}"@,
            Icon::PlayLight => "\u{E805}"@,
            Icon::PlayDark => "\u{E806}"@,
        }
    }

    /// The character of the icon font that draws this symbol, as a text.
    pub fn glyph(self) -> (text: String)
        ensures
            text@ == self.spec_glyph(),
    {
        match self {
            Icon::Refresh => String::from_str("\u{E800}"),
            Icon::TrashBinLight => String::from_str("\u{E801}"),
            Icon::TrashBinDark => String::from_str("\u{E802}"),
            Icon::OpenFolder => String::from_str("\u{E804}"),
            Icon::PlayLight => String::from_str("\u{E805}"),
            Icon::PlayDark => String::from_str("\u{E806}"),
        }
    }
}

/// What happens in the window.
#[derive(Debug, Clone)]
pub enum Message {
    ListMessage(ListMessage),
    TopBarMessage(TopBarMessage),
    PasswordInput(String),
    Patch,
    Fail(FailReason, String),
    OnResize(u16),
    Nothing,
}

/// The work that a message leaves to the program around the library.
pub enum Action {
    /// Nothing is left to do.
    Nothing,
    /// The request is to be sent to the master server; `servers_fetched`
    /// reads its reply.
    FetchServers(ApiRequest),
    /// The system's process table is to be read; `start_patch` goes on
    /// with it.
    FindProcess,
    /// The user is to choose server files; `config_chosen` reads what came
    /// of it.
    ChooseConfigFile,
    /// The text is to be shown to the user as an error.
    ShowAlert(String),
    /// The divider between list and detail panel is to be moved.
    MoveDivider(u16),
}

/// A message of the list, as a message of the window: a failure of the list
/// is a failure of the window.
pub fn map_list_message(m: ListMessage) -> (message: Message)
    ensures
        message == match m {
            ListMessage::Fail(r, s) => Message::Fail(r, s),
            _ => Message::ListMessage(m),
        },
{
    match m {
        ListMessage::Fail(r, s) => Message::Fail(r, s),
        _ => Message::ListMessage(m),
    }
}

/// A message of the top bar, as a message of the window: the wish for a
/// refresh goes to the list.
pub fn map_topbar_message(m: TopBarMessage) -> (message: Message)
    ensures
        message == match m {
            TopBarMessage::RefreshServerList => Message::ListMessage(ListMessage::UpdateServerList),
            _ => Message::TopBarMessage(m),
        },
{
    match m {
        TopBarMessage::RefreshServerList => Message::ListMessage(ListMessage::UpdateServerList),
        _ => Message::TopBarMessage(m),
    }
}

/// The text of an alert: what the failure is called in the window's
/// language, and under it the detail.
pub open spec fn alert_text(
    texts: Localization,
    reason: FailReason,
    description: Seq<char>,
) -> Seq<char> {
    fail_reason_text(texts.language(), reason) + "\nDetail: "@ + description
}

/// Whether `message` reports the failure `reason` with the words of `e`.
pub open spec fn is_failure(message: Message, reason: FailReason, e: LoaderError) -> bool {
    message matches Message::Fail(r, detail) && r == reason && detail@ == e.spec_message()
}

/// The state of the loader's window.
pub struct LoaderMainInterface {
    pub api: MasterServerApi,
    pub patch: Patches,
    /// The password in the input field.
    pub cur_passwd: String,
    pub server_list: ServerList,
    pub texts: Localization,
}

impl LoaderMainInterface {
    /// The window at its start, and the message to begin with: the list of
    /// servers is to be fetched.
    pub fn new(api: MasterServerApi, texts: Localization) -> (start: (LoaderMainInterface, Message))
        ensures
            start.0.api == api,
            start.0.texts == texts,
            start.0.patch.process_name@ == GAME_PROCESS_NAME@,
            start.0.cur_passwd@.len() == 0,
            start.0.server_list.rows@.len() == 0,
            start.0.server_list.selected == 0,
            start.0.server_list.manual_server_offset == 0,
            start.1 == Message::ListMessage(ListMessage::UpdateServerList),
    {
        (
            LoaderMainInterface {
                api,
                patch: Patches::new(),
                cur_passwd: String::new(),
                server_list: ServerList::new(),
                texts,
            },
            Message::ListMessage(ListMessage::UpdateServerList),
        )
    }

    /// The title of the window.
    pub fn title(&self) -> (title: String)
        ensures
            title@ == "Dark Souls III - Another Open Server Loader"@,
    {
        String::from_str("Dark Souls III - Another Open Server Loader")
    }

    /// The alert for a failure: what it is called in the window's language,
    /// and under it the detail.
    pub fn alert(&self, reason: FailReason, description: &str) -> (text: String)
        ensures
            text@ == alert_text(self.texts, reason, description@),
    {
        String::from_str(self.texts.fail_reason(reason)).concat("\nDetail: ").concat(description)
    }

    /// Reads what came of the user's choice of server files: the servers
    /// read from them are imported; no server, or a failure to choose, is
    /// reported as a failure.
    pub fn config_chosen(chosen: Result<Vec<Server>, String>) -> (message: Message)
        ensures
            match chosen {
                Ok(servers) => if servers@.len() == 0 {
                    message matches Message::Fail(reason, detail) && reason
                        == FailReason::ChooseFileFail && detail@.len() == 0
                } else {
                    message == Message::ListMessage(ListMessage::ImportConfig(servers))
                },
                Err(e) => message == Message::Fail(FailReason::ChooseFileFail, e),
            },
    {
        match chosen {
            Ok(servers) => {
                if servers.len() == 0 {
                    Message::Fail(FailReason::ChooseFileFail, String::new())
                } else {
                    Message::ListMessage(ListMessage::ImportConfig(servers))
                }
            },
            Err(e) => Message::Fail(FailReason::ChooseFileFail, e),
        }
    }

    /// Reads the master server's reply to the request for its list: the
    /// list is to be taken into the window's, or the refresh has failed.
    pub fn servers_fetched(
        api: &MasterServerApi,
        reply: Result<ApiResponse, String>,
    ) -> (message: Message)
        ensures
            match servers_of(reply) {
                Ok(servers) => message == Message::ListMessage(
                    ListMessage::UpdateServerListComplete(servers),
                ),
                Err(e) => is_failure(message, FailReason::RefreshListFail, e),
            },
    {
        match api.list_servers(reply) {
            Ok(servers) => Message::ListMessage(ListMessage::UpdateServerListComplete(servers)),
            Err(e) => Message::Fail(FailReason::RefreshListFail, e.message()),
        }
    }

    /// Reads how the patch went once every byte has been tried: nothing is
    /// left to say where the whole record was written, else the patch has
    /// failed.
    pub fn patch_finished(patch: &MemoryPatch) -> (message: Message)
        ensures
            if patch.written() == SERVER_INFO_PATCH_SIZE {
                message == Message::Nothing
            } else {
                is_failure(
                    message,
                    FailReason::PatchFail,
                    LoaderError::PartialWrite {
                        written: patch.written() as usize,
                        expected: SERVER_INFO_PATCH_SIZE,
                    },
                )
            },
    {
        match patch.finish() {
            Ok(_) => Message::Nothing,
            Err(e) => Message::Fail(FailReason::PatchFail, e.message()),
        }
    }

    /// Starts the patch for the selected server, given the system's process
    /// table: the game is picked out of the table, and then either the
    /// server's public key is to be fetched with the password of its row, or,
    /// where the row holds the key, the patch is prepared. Each failure on
    /// the way comes back as the message that reports it.
    pub fn start_patch(&self, processes: &[ProcessEntry]) -> (r: Result<PatchStep, Message>)
        ensures
            if has_id(self.server_list.rows@, self.server_list.selected) {
                let rows = self.server_list.rows@;
                let selected = first_with_id(rows, self.server_list.selected);
                self.is_patch_start(r, processes@, rows[selected].server)
            } else {
                &&& r matches Err(Message::Fail(reason, detail))
                &&& reason == FailReason::ListNoSelected
                &&& detail@ == "No row is selected"@
            },
    {
        let row = match self.server_list.find_selected() {
            Some(row) => row,
            None => {
                return Err(
                    Message::Fail(
                        FailReason::ListNoSelected,
                        String::from_str("No row is selected"),
                    ),
                );
            },
        };
        let pid = match self.patch.find_process(processes) {
            Ok(pid) => pid,
            Err(e) => {
                return Err(Message::Fail(FailReason::ProcessNotFound, e.message()));
            },
        };
        let server = &row.server;
        match Launcher::patch_game(pid, &self.api, server, server.passwd.as_str()) {
            Ok(step) => Ok(step),
            Err(e) => {
                if server.pubkey.as_str().is_empty() {
                    Err(Message::Fail(FailReason::FetchPublicKeyFail, e.message()))
                } else {
                    Err(Message::Fail(FailReason::PatchFail, e.message()))
                }
            },
        }
    }

    /// Whether `r` is what the start of the patch for `server` comes to,
    /// given the process table.
    pub open spec fn is_patch_start(
        &self,
        r: Result<PatchStep, Message>,
        processes: Seq<ProcessEntry>,
        server: Server,
    ) -> bool {
        let name = self.patch.process_name@;
        match r {
            Ok(PatchStep::FetchPublicKey { pid, hostname, request }) => {
                &&& server.pubkey@.len() == 0
                &&& is_game_pid(Ok(pid), processes, name)
                &&& hostname == server.hostname
                &&& self.api.is_pubkey_request(Ok(request), server.ip_addr@, server.passwd@)
            },
            Ok(PatchStep::WriteMemory(patch)) => {
                &&& server.pubkey@.len() > 0
                &&& is_game_pid(Ok(patch.pid()), processes, name)
                &&& is_patch_for(Ok(patch), patch.pid(), server.hostname@, server.pubkey@)
            },
            Err(message) => {
                if !game_runs(processes, name) {
                    is_failure(message, FailReason::ProcessNotFound, LoaderError::ProcessNotFound)
                } else if server.pubkey@.len() == 0 {
                    &&& self.api.pubkey_url(server.ip_addr@) is None
                    &&& is_failure(message, FailReason::FetchPublicKeyFail, LoaderError::InvalidUrl)
                } else {
                    &&& oversize_field(encode_utf8(server.pubkey@), utf16_le(server.hostname@))
                        matches Some(field)
                    &&& is_failure(message, FailReason::PatchFail, LoaderError::Oversize(field))
                }
            },
        }
    }

    /// Goes on with the patch of the game process `pid` for the server with
    /// `hostname`, once the master server has answered the request for its
    /// public key: the patch is prepared with the key, or the failure comes
    /// back as the message that reports it.
    pub fn key_fetched(
        api: &MasterServerApi,
        pid: u32,
        hostname: &str,
        reply: Result<ApiResponse, String>,
    ) -> (r: Result<MemoryPatch, Message>)
        ensures
            match pubkey_of(reply) {
                Ok(pubkey) => match r {
                    Ok(patch) => is_patch_for(Ok(patch), pid, hostname@, pubkey@),
                    Err(message) => {
                        &&& oversize_field(encode_utf8(pubkey@), utf16_le(hostname@)) matches Some(
                            field,
                        )
                        &&& is_failure(
                            message,
                            FailReason::PatchFail,
                            LoaderError::Oversize(field),
                        )
                    },
                },
                Err(e) => r matches Err(message) && is_failure(
                    message,
                    FailReason::FetchPublicKeyFail,
                    e,
                ),
            },
    {
        let pubkey = match api.get_pubkey(reply) {
            Ok(pubkey) => pubkey,
            Err(e) => {
                return Err(Message::Fail(FailReason::FetchPublicKeyFail, e.message()));
            },
        };
        match Patches::patch(pid, hostname, pubkey.as_str()) {
            Ok(patch) => Ok(patch),
            Err(e) => {
                Err(Message::Fail(FailReason::PatchFail, e.message()))
            },
        }
    }

    /// Whether the window can take `message`: the button for the about box
    /// has nothing behind it yet, and a list that comes in must leave its ids
    /// within the numbers of the machine.
    pub open spec fn can_take(&self, message: Message) -> bool {
        &&& !(message matches Message::TopBarMessage(TopBarMessage::ShowAbout))
        &&& message matches Message::ListMessage(m) ==> has_room(self.server_list, m)
    }

    /// Whether the window can take `message`.
    pub fn accepts(&self, message: &Message) -> (ok: bool)
        ensures
            ok == self.can_take(*message),
    {
        match message {
            Message::TopBarMessage(TopBarMessage::ShowAbout) => false,
            Message::ListMessage(m) => self.server_list.has_room_for(m),
            _ => true,
        }
    }

    /// The password in the input field once `message` has been applied:
    /// what was typed, or the password of the row that was selected.
    pub open spec fn password_after(&self, message: Message) -> String {
        let rows = self.server_list.rows@;
        match message {
            Message::PasswordInput(s) => s,
            Message::ListMessage(ListMessage::RowMessage(id, RowMessage::ToggleSelection))
                if has_id(rows, id) => rows[first_with_id(rows, id)].server.passwd,
            _ => self.cur_passwd,
        }
    }

    /// Whether `after` is the list that `message` makes of the window's
    /// list. A message of the list is applied to it; the wish to patch puts
    /// the password of the input field into the selected row; every other
    /// message leaves the list alone.
    pub open spec fn is_list_after(&self, message: Message, after: ServerList) -> bool {
        let rows = self.server_list.rows@;
        let selected = self.server_list.selected;
        match message {
            Message::ListMessage(m) => is_updated(self.server_list, m, after),
            Message::Patch if has_id(rows, selected) => {
                let at = first_with_id(rows, selected);
                &&& after.selected == selected
                &&& after.manual_server_offset == self.server_list.manual_server_offset
                &&& after.rows@ == rows.update(
                    at,
                    ServerRow {
                        server: Server { passwd: self.cur_passwd, ..rows[at].server },
                        ..rows[at]
                    },
                )
            },
            _ => same_list(after, self.server_list),
        }
    }

    /// Whether `action` is the work that `message` leaves to the program
    /// around the library.
    pub open spec fn is_action_for(&self, message: Message, action: Action) -> bool {
        match message {
            Message::ListMessage(ListMessage::UpdateServerList) => {
                &&& action matches Action::FetchServers(req)
                &&& req.method == Method::Get
                &&& req.url@ == self.api.api_url()
                &&& req.password is None
            },
            Message::TopBarMessage(TopBarMessage::ChooseConfigFile) => action is ChooseConfigFile,
            Message::Patch => if has_id(self.server_list.rows@, self.server_list.selected) {
                action is FindProcess
            } else {
                &&& action matches Action::ShowAlert(text)
                &&& text@ == alert_text(
                    self.texts,
                    FailReason::ListNoSelected,
                    "No row is selected"@,
                )
            },
            Message::Fail(reason, description) => {
                &&& action matches Action::ShowAlert(text)
                &&& text@ == alert_text(self.texts, reason, description@)
            },
            Message::OnResize(pos) => action == Action::MoveDivider(pos),
            _ => action is Nothing,
        }
    }

    /// Applies a message to the window and says what is left to the program
    /// around the library.
    ///
    /// A message of the list goes to the list, and where it selects a row,
    /// the row's password goes into the input field. The wish to patch puts
    /// the password of the input field into the selected row and asks for the
    /// process table; with no row selected it is a failure. A failure is
    /// shown as an alert. The button for the about box has nothing behind it
    /// yet and may not be pressed.
    pub fn update(&mut self, message: Message) -> (action: Action)
        requires
            old(self).can_take(message),
        ensures
            final(self).api == old(self).api,
            final(self).patch == old(self).patch,
            final(self).texts == old(self).texts,
            final(self).cur_passwd == old(self).password_after(message),
            old(self).is_list_after(message, final(self).server_list),
            old(self).is_action_for(message, action),
    {
        match message {
            Message::Patch => {
                let passwd = self.cur_passwd.clone();
                match self.server_list.find_selected_mut() {
                    Some(row) => {
                        row.server.passwd = passwd;
                        Action::FindProcess
                    },
                    None => Action::ShowAlert(
                        self.alert(FailReason::ListNoSelected, "No row is selected"),
                    ),
                }
            },
            Message::ListMessage(m) => {
                if let ListMessage::RowMessage(id, RowMessage::ToggleSelection) = m {
                    if let Some(row) = self.server_list.find_by_id(id) {
                        self.cur_passwd = row.server.passwd.clone();
                    }
                }
                match self.server_list.update(m, &self.api) {
                    ListAction::FetchServers(req) => Action::FetchServers(req),
                    ListAction::Nothing => Action::Nothing,
                }
            },
            Message::TopBarMessage(m) => {
                match m {
                    TopBarMessage::ChooseConfigFile => Action::ChooseConfigFile,
                    _ => Action::Nothing,
                }
            },
            Message::Fail(reason, description) => Action::ShowAlert(
                self.alert(reason, description.as_str()),
            ),
            Message::OnResize(pos) => Action::MoveDivider(pos),
            Message::PasswordInput(s) => {
                self.cur_passwd = s;
                Action::Nothing
            },
            Message::Nothing => Action::Nothing,
        }
    }
}

} // verus!
