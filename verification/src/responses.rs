//! What the engine answers, in the shape in which callers get it.

pub mod check_if_exist;
pub mod index_info;
pub mod search_response;
pub mod search_result;
