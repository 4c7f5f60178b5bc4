//! Tome: the request editing, project model and export logic of a terminal HTTP
//! client, with contracts proved by Verus.
pub mod text;
pub mod textarea;
pub mod selector;
pub mod options;
pub mod postman;
pub mod projects;
pub mod requests;
pub mod syntax;
pub mod windows;
pub mod messages;
pub mod dashboard;
pub mod widgets;
pub mod templates;
pub mod button_styles;

use vstd::prelude::*;

verus! {

} // verus!
