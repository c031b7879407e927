//! Order management core: the order entity, its validation rules, the error
//! taxonomy, and the rules of the order table.

pub mod errors;
pub mod handlers;
pub mod order;
pub mod outcome;
pub mod store;
pub mod table;
pub mod text;
pub mod validator;
