//! The memory surface of jojobot: the grammar of what a caller may send, the
//! refusals it answers with, what each verb decides around the store's work,
//! and what every answer says of itself.

pub mod text;
pub mod vocab;
pub mod declined;
pub mod parse;
pub mod types;
pub mod search;
pub mod claims;
pub mod capture;
pub mod new_fact;
pub mod retract;
pub mod entities;
pub mod recall;
pub mod declare_type;
pub mod laws;
pub mod fixtures;
pub mod answers;
pub mod due;
