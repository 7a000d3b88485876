//! A verified model of the Arma 3 scripting command reference: the data types
//! that describe commands, and the parsers that read them from wiki markup.
use vstd::prelude::*;

pub mod branch;
pub mod call;
pub mod call_parser;
pub mod command;
pub mod command_parser;
pub mod commands;
pub mod issue_plan;
pub mod order;
pub mod page;
pub mod param;
pub mod param_parser;
pub mod report;
pub mod return_type;
pub mod run_report;
pub mod since;
pub mod site;
pub mod syntax;
pub mod text;
pub mod value;
pub mod value_display;
pub mod value_parser;
pub mod version;
pub mod version_order;
pub mod wiki_edit;

verus! {

} // verus!
