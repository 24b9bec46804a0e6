//! The main view: the client table beside the log list.

use vstd::prelude::*;
use crate::dto::Client;
use crate::dto::ClientView;
use crate::dto::Clients;
use crate::dto::LogView;
use crate::dto::Logs;
use crate::dto::client_views;
use crate::selection::ListModel;

verus! {

/// The main view as contracts speak of it.
pub struct HomeView {
    pub clients: ListModel<ClientView>,
    pub logs: ListModel<LogView>,
}

/// The two lists of the main view.
#[derive(Debug)]
pub struct Home {
    pub clients: Clients,
    pub logs: Logs,
}

impl View for Home {
    type V = HomeView;

    open spec fn view(&self) -> HomeView {
        HomeView { clients: self.clients@, logs: self.logs@ }
    }
}

impl Home {
    /// The main view over the given clients, the first of them selected,
    /// beside the sample log with no entry selected.
    pub fn new(clients: Vec<Client>) -> (home: Self)
        ensures
            home@.clients == ListModel::holding(client_views(clients@)),
            home@.clients.wf(),
            home@.logs.cursor is None,
            Logs::is_sample(home@.logs.items),
    {
        Self { clients: Clients::init(clients), logs: Logs::dummy() }
    }
}

} // verus!
