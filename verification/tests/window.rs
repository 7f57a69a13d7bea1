use ds3os_loader::api::{ApiResponse, ApiVersion, MasterServerApi, Method, Server};
use ds3os_loader::gui::{
    map_list_message, map_topbar_message, Action, FailReason, Icon, LoaderMainInterface, Message,
};
use ds3os_loader::launch::PatchStep;
use ds3os_loader::localize::{set_language, Language};
use ds3os_loader::patch::{Patches, ProcessEntry};
use ds3os_loader::widgets::list::{ListMessage, RowMessage};
use ds3os_loader::widgets::topbar::TopBarMessage;

fn server(hostname: &str, passwd: &str, pubkey: &str) -> Server {
    Server {
        ip_addr: String::from("10.1.2.3"),
        hostname: String::from(hostname),
        private_hostname: String::new(),
        description: String::new(),
        name: String::from(hostname),
        player_count: 0,
        password_required: !passwd.is_empty(),
        passwd: String::from(passwd),
        mods_white_list: String::new(),
        mods_black_list: String::new(),
        mods_required_list: String::new(),
        pubkey: String::from(pubkey),
    }
}

fn reply(status: &str, message: &str, servers: Vec<Server>, key: &str) -> ApiResponse {
    ApiResponse {
        status: String::from(status),
        message: String::from(message),
        servers,
        public_key: String::from(key),
    }
}

fn window() -> LoaderMainInterface {
    let api = MasterServerApi::new("http://master.example/api/v1/servers/", ApiVersion::V1).unwrap();
    LoaderMainInterface::new(api, set_language(Language::English, None)).0
}

fn window_with(servers: Vec<Server>) -> LoaderMainInterface {
    let mut window = window();
    window.update(Message::ListMessage(ListMessage::UpdateServerListComplete(servers)));
    window
}

fn game(pid: u32) -> ProcessEntry {
    ProcessEntry { pid, name: String::from("DarkSoulsIII.ex") }
}

fn failure(message: Message) -> (FailReason, String) {
    match message {
        Message::Fail(reason, detail) => (reason, detail),
        other => panic!("no failure: {:?}", other),
    }
}

fn alert(action: Action) -> String {
    match action {
        Action::ShowAlert(text) => text,
        _ => panic!("no alert"),
    }
}

#[test]
fn icons_have_their_glyphs() {
    assert_eq!(Icon::Refresh.glyph(), "\u{E800}");
    assert_eq!(Icon::TrashBinLight.glyph(), "\u{E801}");
    assert_eq!(Icon::TrashBinDark.glyph(), "\u{E802}");
    assert_eq!(Icon::OpenFolder.glyph(), "\u{E804}");
    assert_eq!(Icon::PlayLight.glyph(), "\u{E805}");
    assert_eq!(Icon::PlayDark.glyph(), "\u{E806}");
}

#[test]
fn failure_of_the_list_becomes_a_failure_of_the_window() {
    let m = map_list_message(ListMessage::Fail(FailReason::RefreshListFail, String::from("x")));
    assert_eq!(failure(m), (FailReason::RefreshListFail, String::from("x")));
    let m = map_list_message(ListMessage::UpdateServerList);
    assert!(matches!(m, Message::ListMessage(ListMessage::UpdateServerList)));
    let m = map_list_message(ListMessage::RowMessage(4, RowMessage::Delete));
    assert!(matches!(
        m,
        Message::ListMessage(ListMessage::RowMessage(4, RowMessage::Delete))
    ));
}

#[test]
fn refresh_button_speaks_to_the_list() {
    let m = map_topbar_message(TopBarMessage::RefreshServerList);
    assert!(matches!(m, Message::ListMessage(ListMessage::UpdateServerList)));
    let m = map_topbar_message(TopBarMessage::ChooseConfigFile);
    assert!(matches!(m, Message::TopBarMessage(TopBarMessage::ChooseConfigFile)));
    let m = map_topbar_message(TopBarMessage::ShowAbout);
    assert!(matches!(m, Message::TopBarMessage(TopBarMessage::ShowAbout)));
}

#[test]
fn window_starts_empty_and_asks_for_the_list() {
    let api = MasterServerApi::new("http://master.example/api/v1/servers/", ApiVersion::V1).unwrap();
    let (mut window, first) = LoaderMainInterface::new(api, set_language(Language::English, None));
    assert_eq!(window.title(), "Dark Souls III - Another Open Server Loader");
    assert_eq!(window.cur_passwd, "");
    assert!(window.server_list.rows.is_empty());
    assert_eq!(window.patch.process_name, "DarkSoulsIII.ex");
    assert!(matches!(first, Message::ListMessage(ListMessage::UpdateServerList)));
    match window.update(first) {
        Action::FetchServers(req) => {
            assert_eq!(req.method, Method::Get);
            assert_eq!(req.url, "http://master.example/api/v1/servers/");
        }
        _ => panic!("the list was to be fetched"),
    }
}

#[test]
fn fetched_list_fills_the_window() {
    let mut window = window();
    let res = reply("success", "", vec![server("a", "", ""), server("b", "", "")], "");
    let message = LoaderMainInterface::servers_fetched(&window.api, Ok(res));
    assert!(matches!(
        message,
        Message::ListMessage(ListMessage::UpdateServerListComplete(_))
    ));
    assert!(matches!(window.update(message), Action::Nothing));
    assert_eq!(window.server_list.rows.len(), 2);
    assert_eq!(window.server_list.rows[0].id, 2016);
    assert_eq!(window.server_list.rows[1].server.hostname, "b");
}

#[test]
fn failed_refresh_is_reported() {
    let window = window();
    let res = reply("success", "", Vec::new(), "");
    assert_eq!(
        failure(LoaderMainInterface::servers_fetched(&window.api, Ok(res))),
        (FailReason::RefreshListFail, String::from("Master server return error!"))
    );
    assert_eq!(
        failure(LoaderMainInterface::servers_fetched(&window.api, Err(String::from("no route")))),
        (FailReason::RefreshListFail, String::from("no route"))
    );
}

#[test]
fn failure_is_shown_with_its_detail() {
    let mut window = window();
    let action = window.update(Message::Fail(FailReason::PatchFail, String::from("it broke")));
    assert_eq!(alert(action), "Exception happened during the patch\nDetail: it broke");
    assert_eq!(
        window.alert(FailReason::ChooseFileFail, ""),
        "Invalid file choosen!\nDetail: "
    );
}

#[test]
fn failure_is_shown_in_the_windows_language() {
    let api = MasterServerApi::new("http://master.example/", ApiVersion::V1).unwrap();
    let (mut window, _) = LoaderMainInterface::new(api, set_language(Language::SChinese, None));
    let action = window.update(Message::Fail(FailReason::ListNoSelected, String::from("x")));
    assert_eq!(alert(action), "请先选择一个服务器\nDetail: x");
}

#[test]
fn password_input_is_kept() {
    let mut window = window();
    assert!(matches!(
        window.update(Message::PasswordInput(String::from("hunter2"))),
        Action::Nothing
    ));
    assert_eq!(window.cur_passwd, "hunter2");
}

#[test]
fn selecting_a_row_shows_its_password() {
    let mut window = window_with(vec![server("a", "pw-a", ""), server("b", "pw-b", "")]);
    window.update(Message::PasswordInput(String::from("typed")));
    window.update(Message::ListMessage(ListMessage::RowMessage(
        2017,
        RowMessage::ToggleSelection,
    )));
    assert_eq!(window.server_list.selected, 2017);
    assert_eq!(window.cur_passwd, "pw-b");
    window.update(Message::ListMessage(ListMessage::RowMessage(
        5,
        RowMessage::ToggleSelection,
    )));
    assert_eq!(window.server_list.selected, 2017);
    assert_eq!(window.cur_passwd, "pw-b");
}

#[test]
fn patch_without_a_selection_is_a_failure() {
    let mut window = window_with(vec![server("a", "", "")]);
    let action = window.update(Message::Patch);
    assert_eq!(
        alert(action),
        "Please select a server first!\nDetail: No row is selected"
    );
    assert_eq!(
        failure(window.start_patch(&[game(1)]).err().unwrap()),
        (FailReason::ListNoSelected, String::from("No row is selected"))
    );
}

#[test]
fn patch_puts_the_typed_password_into_the_row() {
    let mut window = window_with(vec![server("a", "", ""), server("b", "", "")]);
    window.update(Message::ListMessage(ListMessage::RowMessage(
        2016,
        RowMessage::ToggleSelection,
    )));
    window.update(Message::PasswordInput(String::from("typed")));
    assert!(matches!(window.update(Message::Patch), Action::FindProcess));
    assert_eq!(window.server_list.rows[0].server.passwd, "typed");
    assert_eq!(window.server_list.rows[1].server.passwd, "");
    assert_eq!(window.server_list.rows.len(), 2);
    assert_eq!(window.server_list.selected, 2016);
}

#[test]
fn patch_needs_the_game_to_run() {
    let mut window = window_with(vec![server("a", "", "ABC")]);
    window.update(Message::ListMessage(ListMessage::RowMessage(
        2016,
        RowMessage::ToggleSelection,
    )));
    let table = [ProcessEntry { pid: 1, name: String::from("init") }];
    assert_eq!(
        failure(window.start_patch(&table).err().unwrap()),
        (FailReason::ProcessNotFound, String::from("Can't find process"))
    );
}

#[test]
fn patch_with_the_key_at_hand_is_prepared_at_once() {
    let mut window = window_with(vec![server("srv", "", "ABC")]);
    window.update(Message::ListMessage(ListMessage::RowMessage(
        2016,
        RowMessage::ToggleSelection,
    )));
    let patch = match window.start_patch(&[game(30), game(40), game(35)]) {
        Ok(PatchStep::WriteMemory(patch)) => patch,
        _ => panic!("the key was at hand"),
    };
    assert_eq!(patch.target(), 40);
    let cipher = Patches::encrypt("srv", "ABC").unwrap();
    assert_eq!(patch.next_write().unwrap().byte, cipher[0]);
}

#[test]
fn patch_without_the_key_asks_for_it_with_the_rows_password() {
    let mut window = window_with(vec![server("srv", "", "")]);
    window.update(Message::ListMessage(ListMessage::RowMessage(
        2016,
        RowMessage::ToggleSelection,
    )));
    window.update(Message::PasswordInput(String::from("typed")));
    window.update(Message::Patch);
    match window.start_patch(&[game(30)]) {
        Ok(PatchStep::FetchPublicKey { pid, hostname, request }) => {
            assert_eq!(pid, 30);
            assert_eq!(hostname, "srv");
            assert_eq!(request.method, Method::Post);
            assert_eq!(
                request.url,
                "http://master.example/api/v1/servers/10.1.2.3/public_key"
            );
            assert_eq!(request.password.as_deref(), Some("typed"));
        }
        _ => panic!("the key was to be fetched"),
    }
}

#[test]
fn patch_with_a_key_too_long_fails() {
    let key = "k".repeat(431);
    let mut window = window_with(vec![server("srv", "", &key)]);
    window.update(Message::ListMessage(ListMessage::RowMessage(
        2016,
        RowMessage::ToggleSelection,
    )));
    assert_eq!(
        failure(window.start_patch(&[game(30)]).err().unwrap()),
        (FailReason::PatchFail, String::from("Key's size is too big!"))
    );
}

#[test]
fn patch_with_an_address_that_does_not_join_fails() {
    let mut entry = server("srv", "", "");
    entry.ip_addr = String::from("http://[");
    let mut window = window_with(vec![entry]);
    window.update(Message::ListMessage(ListMessage::RowMessage(
        2016,
        RowMessage::ToggleSelection,
    )));
    assert_eq!(
        failure(window.start_patch(&[game(30)]).err().unwrap()),
        (
            FailReason::FetchPublicKeyFail,
            String::from("Invalid master server address!")
        )
    );
}

#[test]
fn fetched_key_leads_to_the_patch() {
    let window = window();
    let res = reply("success", "", Vec::new(), "ABC");
    let patch = LoaderMainInterface::key_fetched(&window.api, 30, "srv", Ok(res)).ok().unwrap();
    assert_eq!(patch.target(), 30);
    let cipher = Patches::encrypt("srv", "ABC").unwrap();
    assert_eq!(patch.next_write().unwrap().byte, cipher[0]);
}

#[test]
fn refused_key_is_reported_with_the_servers_message() {
    let window = window();
    let res = reply("error", "Password was incorrect.", Vec::new(), "");
    assert_eq!(
        failure(LoaderMainInterface::key_fetched(&window.api, 30, "srv", Ok(res)).err().unwrap()),
        (FailReason::FetchPublicKeyFail, String::from("Password was incorrect."))
    );
    assert_eq!(
        failure(LoaderMainInterface::key_fetched(&window.api, 30, "srv", Err(String::from("offline"))).err().unwrap()),
        (FailReason::FetchPublicKeyFail, String::from("offline"))
    );
}

#[test]
fn fetched_key_too_long_fails_the_patch() {
    let window = window();
    let host = "h".repeat(86);
    let res = reply("success", "", Vec::new(), "ABC");
    assert_eq!(
        failure(LoaderMainInterface::key_fetched(&window.api, 30, &host, Ok(res)).err().unwrap()),
        (FailReason::PatchFail, String::from("Host's size is too big!"))
    );
}

#[test]
fn finished_patch_is_reported() {
    let mut patch = Patches::patch(1, "srv", "ABC").unwrap();
    while patch.next_write().is_some() {
        patch.record(true);
    }
    assert!(matches!(LoaderMainInterface::patch_finished(&patch), Message::Nothing));

    let mut patch = Patches::patch(1, "srv", "ABC").unwrap();
    patch.record(false);
    while patch.next_write().is_some() {
        patch.record(true);
    }
    assert_eq!(
        failure(LoaderMainInterface::patch_finished(&patch)),
        (
            FailReason::PatchFail,
            String::from("Exception happened during the patch!")
        )
    );
}

#[test]
fn chosen_files_are_imported() {
    let message = LoaderMainInterface::config_chosen(Ok(vec![server("mine", "", "")]));
    let mut window = window_with(vec![server("a", "", "")]);
    assert!(matches!(
        message,
        Message::ListMessage(ListMessage::ImportConfig(_))
    ));
    window.update(message);
    assert_eq!(window.server_list.rows.len(), 2);
    assert_eq!(window.server_list.rows[0].server.hostname, "mine");
    assert!(window.server_list.rows[0].is_manual);
    assert_eq!(window.server_list.rows[0].id, 0);
}

#[test]
fn empty_or_failed_choice_is_reported() {
    assert_eq!(
        failure(LoaderMainInterface::config_chosen(Ok(Vec::new()))),
        (FailReason::ChooseFileFail, String::new())
    );
    assert_eq!(
        failure(LoaderMainInterface::config_chosen(Err(String::from("cancelled")))),
        (FailReason::ChooseFileFail, String::from("cancelled"))
    );
}

#[test]
fn about_box_is_not_taken() {
    let window = window();
    assert!(!window.accepts(&Message::TopBarMessage(TopBarMessage::ShowAbout)));
    assert!(window.accepts(&Message::TopBarMessage(TopBarMessage::ChooseConfigFile)));
    assert!(window.accepts(&Message::Patch));
    assert!(window.accepts(&Message::ListMessage(ListMessage::ImportConfig(vec![
        server("a", "", "")
    ]))));
    assert!(window.accepts(&Message::ListMessage(
        ListMessage::UpdateServerListComplete(Vec::new())
    )));
}

#[test]
fn top_bar_and_divider() {
    let mut window = window();
    assert!(matches!(
        window.update(Message::TopBarMessage(TopBarMessage::ChooseConfigFile)),
        Action::ChooseConfigFile
    ));
    assert!(matches!(
        window.update(Message::TopBarMessage(TopBarMessage::RefreshServerList)),
        Action::Nothing
    ));
    assert!(matches!(window.update(Message::OnResize(300)), Action::MoveDivider(300)));
    assert!(matches!(window.update(Message::Nothing), Action::Nothing));
}
