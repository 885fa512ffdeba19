//! Core of an interactive command interpreter: a tokenizer that resolves
//! quoting and escaping, a parser that groups words into a pipeline of
//! command segments with their redirections, a resolver that turns a
//! redirection list into one destination per stream, the fixed builtin
//! command set as pure state-and-event functions, executable resolution
//! against a search-path snapshot, and a planner that wires every pipeline
//! stage to a pipe end, a file, or the interpreter's own streams. Every
//! function here is verified against the specifications in its module; the
//! platform work (reading lines, creating pipes, opening files, spawning
//! processes) stays with the caller, which hands in plain snapshots and
//! carries out the returned effects.
use vstd::prelude::*;

pub mod ast;
pub mod builtins;
pub mod exec_plan;
pub mod lookup;
pub mod numparse;
pub mod parser;
pub mod redirect;
mod strutil;
pub mod tokenizer;

pub use builtins::{cd_failure_message, exit_code, BuiltinAction, BuiltinOutcome, CommandOutcome, SessionEnv, Shell};
pub use exec_plan::{plan_pipeline, ExecutionPlan, InputWiring, OutputWiring, SegmentPlan};
pub use lookup::{collect_path_executables, find_executable, is_executable, split_path_list, DirListing, FileEntry};
pub use numparse::parse_i32;
pub use parser::{parse_command_segment, parse_pipeline};
pub use redirect::resolve_redirections;
pub use strutil::str_eq;
pub use tokenizer::tokenize;

verus! {

} // verus!
