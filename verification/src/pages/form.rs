//! A form under a title.

use vstd::prelude::*;
use crate::dto::Client;
use crate::dto::ClientFocus;
use crate::dto::ClientForm;
use crate::dto::ClientView;
use crate::dto::FormView;

verus! {

/// A titled form as contracts speak of it.
pub struct FormPageView {
    pub title: Seq<char>,
    pub data: FormView,
}

/// A client form and the title it is shown under.
#[derive(Debug)]
pub struct Form {
    pub title: String,
    pub data: ClientForm,
}

impl View for Form {
    type V = FormPageView;

    open spec fn view(&self) -> FormPageView {
        FormPageView { title: self.title@, data: self.data@ }
    }
}

impl Form {
    /// An empty form under `title`.
    pub fn new(title: String) -> (page: Self)
        ensures
            page@ == (FormPageView { title: title@, data: FormView::blank() }),
    {
        Self { title, data: ClientForm::new() }
    }

    /// A form under `title` with the three fields filled in. It edits no
    /// client of the table: there is nothing kept aside.
    pub fn from(title: String, name: String, address: String, public_key: String) -> (page: Self)
        ensures
            page@ == (FormPageView {
                title: title@,
                data: FormView {
                    values: ClientView {
                        name: name@,
                        address: address@,
                        public_key: public_key@,
                    },
                    callback: None,
                    focus: ClientFocus::Name,
                },
            }),
    {
        Self {
            title,
            data: ClientForm {
                values: Client { name, address, public_key },
                callback: None,
                focus: ClientFocus::Name,
            },
        }
    }
}

} // verus!
