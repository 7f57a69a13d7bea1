//! The list of servers in the window: the rows, the one that is selected,
//! and what the messages of the list do to them.

use crate::api::{ApiRequest, MasterServerApi, Method, Server};
use crate::gui::FailReason;
use crate::text::same_text;
use vstd::prelude::*;

verus! {

/// The id of the first row that a refresh of the list adds.
pub const FIRST_FETCHED_ID: usize = 2016;

/// One row of the list: a server under the id by which messages name it.
pub struct ServerRow {
    pub id: usize,
    pub server: Server,
    /// Whether the server was imported from a file by the user.
    pub is_manual: bool,
}

/// What a row asks of the list.
#[derive(Clone, Copy, Debug, PartialEq, Eq, Structural)]
pub enum RowMessage {
    Delete,
    ToggleSelection,
}

/// What happens to the list.
#[derive(Debug, Clone)]
pub enum ListMessage {
    UpdateServerList,
    UpdateServerListComplete(Vec<Server>),
    ImportConfig(Vec<Server>),
    Fail(FailReason, String),
    RowMessage(usize, RowMessage),
}

/// The work that a message of the list leaves to the program around it.
pub enum ListAction {
    /// Nothing is left to do.
    Nothing,
    /// The request is to be sent to the master server and its reply read as
    /// a list of servers.
    FetchServers(ApiRequest),
}

impl ServerRow {
    /// A row for `server` under the id `id`.
    pub fn new(server: Server, id: usize, is_manual: bool) -> (row: ServerRow)
        ensures
            row == (ServerRow { id, server, is_manual }),
    {
        ServerRow { id, server, is_manual }
    }
}

/// The rows that a run of servers makes: server `i` under the id
/// `first_id + i`.
pub open spec fn rows_of(servers: Seq<Server>, first_id: int, is_manual: bool) -> Seq<ServerRow> {
    Seq::new(
        servers.len(),
        |i: int| ServerRow { id: (first_id + i) as usize, server: servers[i], is_manual },
    )
}

/// Whether one of the rows holds a server of the given hostname.
pub open spec fn lists_hostname(rows: Seq<ServerRow>, hostname: Seq<char>) -> bool {
    exists|i: int| 0 <= i < rows.len() && (#[trigger] rows[i]).server.hostname@ == hostname
}

/// Whether row `i` is the first of the rows that bears the id `id`.
pub open spec fn is_first_with_id(rows: Seq<ServerRow>, i: int, id: usize) -> bool {
    &&& 0 <= i < rows.len()
    &&& rows[i].id == id
    &&& forall|j: int| 0 <= j < i ==> (#[trigger] rows[j]).id != id
}

/// The place of the first of the rows that bears the id `id`, where one does.
pub open spec fn first_with_id(rows: Seq<ServerRow>, id: usize) -> int {
    choose|i: int| is_first_with_id(rows, i, id)
}

/// Whether one of the rows bears the id `id`.
pub open spec fn has_id(rows: Seq<ServerRow>, id: usize) -> bool {
    exists|i: int| 0 <= i < rows.len() && (#[trigger] rows[i]).id == id
}

/// The rows that a refresh of the list leaves and adds: the imported rows
/// stay, in their order, and behind them come the servers of the master
/// server's list under the ids from 2016 on.
pub open spec fn rebuilt_rows(rows: Seq<ServerRow>, servers: Seq<Server>) -> Seq<ServerRow> {
    rows.filter(|row: ServerRow| row.is_manual) + rows_of(servers, FIRST_FETCHED_ID as int, false)
}

/// The servers of an import that are taken into the list: those whose
/// hostname no row of the list bears yet.
pub open spec fn imported_servers(rows: Seq<ServerRow>, servers: Seq<Server>) -> Seq<Server> {
    servers.filter(|server: Server| !lists_hostname(rows, server.hostname@))
}

/// Whether `after` is the list that `message` makes of the list `before`:
/// a refresh that has come in rebuilds the rows, an import puts its servers
/// in front, a row's wish to go removes it, a row's wish to be selected
/// selects it where it exists; the wish for a refresh and a failure change
/// nothing.
pub open spec fn is_updated(before: ServerList, message: ListMessage, after: ServerList) -> bool {
    &&& after.selected == match message {
        ListMessage::RowMessage(id, RowMessage::ToggleSelection) if has_id(before.rows@, id) => id,
        _ => before.selected,
    }
    &&& after.rows@ == match message {
        ListMessage::UpdateServerListComplete(servers) => rebuilt_rows(before.rows@, servers@),
        ListMessage::ImportConfig(servers) => rows_of(
            imported_servers(before.rows@, servers@),
            before.manual_server_offset as int,
            true,
        ) + before.rows@,
        ListMessage::RowMessage(id, RowMessage::Delete) => before.rows@.filter(
            |row: ServerRow| row.id != id,
        ),
        _ => before.rows@,
    }
    &&& after.manual_server_offset == match message {
        ListMessage::ImportConfig(servers) => before.manual_server_offset + imported_servers(
            before.rows@,
            servers@,
        ).len(),
        _ => before.manual_server_offset as int,
    }
}

/// Whether two lists hold the same rows, selection and count of imports.
pub open spec fn same_list(a: ServerList, b: ServerList) -> bool {
    &&& a.rows@ == b.rows@
    &&& a.selected == b.selected
    &&& a.manual_server_offset == b.manual_server_offset
}

/// Whether a list has room for what `message` brings: the ids that its
/// servers get must be numbers of the machine.
pub open spec fn has_room(list: ServerList, message: ListMessage) -> bool {
    match message {
        ListMessage::UpdateServerListComplete(servers) => FIRST_FETCHED_ID + servers@.len()
            <= usize::MAX + 1,
        ListMessage::ImportConfig(servers) => list.manual_server_offset + servers@.len()
            <= usize::MAX,
        _ => true,
    }
}

/// The list of servers.
pub struct ServerList {
    pub rows: Vec<ServerRow>,
    /// The id of the selected row. No row may bear it: then none is selected.
    pub selected: usize,
    /// The id that the next imported server gets.
    pub manual_server_offset: usize,
}

fn make_rows(rows: &mut Vec<ServerRow>, servers: Vec<Server>, first_id: usize, is_manual: bool)
    requires
        first_id + servers@.len() <= usize::MAX + 1,
    ensures
        final(rows)@ == old(rows)@ + rows_of(servers@, first_id as int, is_manual),
{
    let ghost before = rows@;
    let ghost all = servers@;
    assert(all.len() == servers.len());
    let mut made: usize = 0;
    for server in it: servers
        invariant
            it.seq() == all,
            first_id + all.len() <= usize::MAX + 1,
            all.len() <= usize::MAX,
            made == it.index(),
            rows@ == before + rows_of(all.take(made as int), first_id as int, is_manual),
    {
        rows.push(ServerRow::new(server, first_id + made, is_manual));
        made += 1;
        assert(rows@ == before + rows_of(all.take(made as int), first_id as int, is_manual));
    }
    assert(all.take(all.len() as int) == all);
}

impl ServerList {
    /// An empty list.
    pub fn new() -> (list: ServerList)
        ensures
            list.rows@.len() == 0,
            list.selected == 0,
            list.manual_server_offset == 0,
    {
        Self::with_servers(Vec::new())
    }

    /// A list of the given servers, under the ids from 1 on.
    pub fn with_servers(servers: Vec<Server>) -> (list: ServerList)
        ensures
            list.rows@ == rows_of(servers@, 1, false),
            list.selected == 0,
            list.manual_server_offset == 0,
    {
        let mut rows = Vec::new();
        assert(servers@.len() == servers.len());
        make_rows(&mut rows, servers, 1, false);
        ServerList { rows, selected: 0, manual_server_offset: 0 }
    }

    fn position_of(&self, id: usize) -> (at: Option<usize>)
        ensures
            match at {
                Some(i) => {
                    &&& has_id(self.rows@, id)
                    &&& is_first_with_id(self.rows@, i as int, id)
                    &&& i == first_with_id(self.rows@, id)
                },
                None => !has_id(self.rows@, id),
            },
    {
        for i in 0..self.rows.len()
            invariant
                forall|j: int| 0 <= j < i ==> (#[trigger] self.rows@[j]).id != id,
        {
            if self.rows[i].id == id {
                assert(is_first_with_id(self.rows@, i as int, id));
                return Some(i);
            }
        }
        None
    }

    /// The first row that bears the id `id`.
    pub fn find_by_id(&self, id: usize) -> (found: Option<&ServerRow>)
        ensures
            match found {
                Some(row) => has_id(self.rows@, id) && *row == self.rows@[first_with_id(
                    self.rows@,
                    id,
                )],
                None => !has_id(self.rows@, id),
            },
    {
        match self.position_of(id) {
            Some(i) => Some(&self.rows[i]),
            None => None,
        }
    }

    /// The selected row: the first that bears the selected id.
    pub fn find_selected(&self) -> (found: Option<&ServerRow>)
        ensures
            match found {
                Some(row) => has_id(self.rows@, self.selected) && *row == self.rows@[first_with_id(
                    self.rows@,
                    self.selected,
                )],
                None => !has_id(self.rows@, self.selected),
            },
    {
        self.find_by_id(self.selected)
    }

    /// The first row that bears the id `id`, to be changed in its place.
    pub fn find_by_id_mut(&mut self, id: usize) -> (found: Option<&mut ServerRow>)
        ensures
            final(self).selected == old(self).selected,
            final(self).manual_server_offset == old(self).manual_server_offset,
            match found {
                Some(row) => {
                    let at = first_with_id(old(self).rows@, id);
                    &&& has_id(old(self).rows@, id)
                    &&& *row == old(self).rows@[at]
                    &&& final(self).rows@ == old(self).rows@.update(at, *final(row))
                },
                None => !has_id(old(self).rows@, id) && final(self).rows@ == old(self).rows@,
            },
    {
        match self.position_of(id) {
            Some(i) => Some(&mut self.rows[i]),
            None => None,
        }
    }

    /// The selected row, to be changed in its place.
    pub fn find_selected_mut(&mut self) -> (found: Option<&mut ServerRow>)
        ensures
            final(self).selected == old(self).selected,
            final(self).manual_server_offset == old(self).manual_server_offset,
            match found {
                Some(row) => {
                    let at = first_with_id(old(self).rows@, old(self).selected);
                    &&& has_id(old(self).rows@, old(self).selected)
                    &&& *row == old(self).rows@[at]
                    &&& final(self).rows@ == old(self).rows@.update(at, *final(row))
                },
                None => {
                    &&& !has_id(old(self).rows@, old(self).selected)
                    &&& final(self).rows@ == old(self).rows@
                },
            },
    {
        let id = self.selected;
        self.find_by_id_mut(id)
    }

    /// Takes the master server's list into this one: the rows of an earlier
    /// refresh go, the imported rows stay, and the servers of the new list
    /// follow them under the ids from 2016 on.
    pub fn rebuild_list(&mut self, servers: Vec<Server>)
        requires
            FIRST_FETCHED_ID + servers@.len() <= usize::MAX + 1,
        ensures
            final(self).rows@ == rebuilt_rows(old(self).rows@, servers@),
            final(self).selected == old(self).selected,
            final(self).manual_server_offset == old(self).manual_server_offset,
    {
        let mut before: Vec<ServerRow> = Vec::new();
        core::mem::swap(&mut before, &mut self.rows);
        let ghost all = before@;
        for row in it: before
            invariant
                it.seq() == all,
                self.rows@ == all.take(it.index() as int).filter(|row: ServerRow| row.is_manual),
                self.selected == old(self).selected,
                self.manual_server_offset == old(self).manual_server_offset,
        {
            proof {
                reveal(Seq::filter);
                assert(all.take(it.index() + 1).drop_last() == all.take(it.index() as int));
            }
            if row.is_manual {
                self.rows.push(row);
            }
        }
        assert(all.take(all.len() as int) == all);
        make_rows(&mut self.rows, servers, FIRST_FETCHED_ID, false);
    }

    /// Takes servers that the user imported into the list. A server whose
    /// hostname a row of the list bears already is left out. The others go
    /// to the front of the list, in their order, under ids that count on from
    /// the last import.
    pub fn import(&mut self, servers: Vec<Server>)
        requires
            old(self).manual_server_offset + servers@.len() <= usize::MAX,
        ensures
            final(self).rows@ == rows_of(
                imported_servers(old(self).rows@, servers@),
                old(self).manual_server_offset as int,
                true,
            ) + old(self).rows@,
            final(self).manual_server_offset == old(self).manual_server_offset + imported_servers(
                old(self).rows@,
                servers@,
            ).len(),
            final(self).selected == old(self).selected,
    {
        let ghost all = servers@;
        let ghost rows = self.rows@;
        let mut kept: Vec<Server> = Vec::new();
        for server in it: servers
            invariant
                it.seq() == all,
                self.rows@ == rows,
                kept@ == imported_servers(rows, all.take(it.index() as int)),
        {
            proof {
                reveal(Seq::filter);
                assert(all.take(it.index() + 1).drop_last() == all.take(it.index() as int));
            }
            if !self.has_hostname(server.hostname.as_str()) {
                kept.push(server);
            }
        }
        assert(all.take(all.len() as int) == all);
        proof {
            all.lemma_filter_len(|server: Server| !lists_hostname(rows, server.hostname@));
        }
        let offset = self.manual_server_offset;
        assert(kept@.len() == kept.len());
        self.manual_server_offset = offset + kept.len();
        let mut front: Vec<ServerRow> = Vec::new();
        make_rows(&mut front, kept, offset, true);
        front.append(&mut self.rows);
        self.rows = front;
    }

    /// Whether a row of the list holds a server of the given hostname.
    pub fn has_hostname(&self, hostname: &str) -> (found: bool)
        ensures
            found == lists_hostname(self.rows@, hostname@),
    {
        for i in 0..self.rows.len()
            invariant
                forall|j: int|
                    0 <= j < i ==> (#[trigger] self.rows@[j]).server.hostname@ != hostname@,
        {
            if same_text(self.rows[i].server.hostname.as_str(), hostname) {
                return true;
            }
        }
        false
    }

    /// Removes every row that bears the id `id`.
    pub fn delete(&mut self, id: usize)
        ensures
            final(self).rows@ == old(self).rows@.filter(|row: ServerRow| row.id != id),
            final(self).selected == old(self).selected,
            final(self).manual_server_offset == old(self).manual_server_offset,
    {
        let mut before: Vec<ServerRow> = Vec::new();
        core::mem::swap(&mut before, &mut self.rows);
        let ghost all = before@;
        for row in it: before
            invariant
                it.seq() == all,
                self.rows@ == all.take(it.index() as int).filter(|row: ServerRow| row.id != id),
                self.selected == old(self).selected,
                self.manual_server_offset == old(self).manual_server_offset,
        {
            proof {
                reveal(Seq::filter);
                assert(all.take(it.index() + 1).drop_last() == all.take(it.index() as int));
            }
            if row.id != id {
                self.rows.push(row);
            }
        }
        assert(all.take(all.len() as int) == all);
    }

    /// Selects the row that bears the id `id`. Where no row bears it, the
    /// selection stays as it is.
    pub fn toggle_selection(&mut self, id: usize)
        ensures
            final(self).rows@ == old(self).rows@,
            final(self).manual_server_offset == old(self).manual_server_offset,
            final(self).selected == if has_id(old(self).rows@, id) {
                id
            } else {
                old(self).selected
            },
    {
        if self.position_of(id).is_some() {
            self.selected = id;
        }
    }

    /// Whether the list has room for what `message` brings.
    pub fn has_room_for(&self, message: &ListMessage) -> (ok: bool)
        ensures
            ok == has_room(*self, *message),
    {
        match message {
            ListMessage::UpdateServerListComplete(servers) => servers.len() <= usize::MAX
                - FIRST_FETCHED_ID + 1,
            ListMessage::ImportConfig(servers) => servers.len() <= usize::MAX
                - self.manual_server_offset,
            _ => true,
        }
    }

    /// Applies a message to the list and says what is left to do. A refresh
    /// is left to the program around the library, which sends the request and
    /// comes back with the list or the failure; every other message is
    /// dealt with here.
    pub fn update(&mut self, message: ListMessage, api: &MasterServerApi) -> (action: ListAction)
        requires
            has_room(*old(self), message),
        ensures
            is_updated(*old(self), message, *final(self)),
            match message {
                ListMessage::UpdateServerList => {
                    &&& action matches ListAction::FetchServers(req)
                    &&& req.method == Method::Get
                    &&& req.url@ == api.api_url()
                    &&& req.password is None
                },
                _ => action is Nothing,
            },
    {
        match message {
            ListMessage::UpdateServerList => {
                return ListAction::FetchServers(api.list_servers_request());
            },
            ListMessage::UpdateServerListComplete(servers) => {
                self.rebuild_list(servers);
            },
            ListMessage::Fail(_, _) => {},
            ListMessage::RowMessage(id, row_message) => {
                match row_message {
                    RowMessage::Delete => {
                        self.delete(id);
                    },
                    RowMessage::ToggleSelection => {
                        self.toggle_selection(id);
                    },
                }
            },
            ListMessage::ImportConfig(servers) => {
                self.import(servers);
            },
        }
        ListAction::Nothing
    }
}

} // verus!
