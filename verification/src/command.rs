//! The command descriptor and the option guard.
//!
//! The descriptor declares the command's external shape — name, description,
//! one required string parameter — and is handed to the hosting bot framework
//! at registration time. The guard inspects the options the framework passed
//! back on an invocation.

use vstd::prelude::*;

use crate::render::invalid_input_text;
use crate::render::invalid_input_reply;
use crate::render::url_of;
use crate::render::build_url;

verus! {

/// The type of a command parameter. The command declares only string
/// parameters.
pub enum CommandOptionKind {
    Text,
}

/// One declared command parameter.
pub struct CommandOption {
    pub kind: CommandOptionKind,
    pub name: String,
    pub description: String,
    pub required: bool,
}

/// The command's external shape: name, description, parameters.
pub struct CommandDescriptor {
    pub name: String,
    pub description: String,
    pub options: Vec<CommandOption>,
}

/// Builds the command descriptor: a command named `verify` with exactly one
/// required string option. Construction cannot fail.
pub fn register() -> (d: CommandDescriptor)
    ensures
        d.name@ == "verify"@,
        d.description@ == "Get some GitHub information"@,
        d.options@.len() == 1,
        d.options@[0].kind is Text,
        d.options@[0].name@ == "string"@,
        d.options@[0].description@ == "GitHub Username"@,
        d.options@[0].required,
{
    let option = CommandOption {
        kind: CommandOptionKind::Text,
        name: String::from_str("string"),
        description: String::from_str("GitHub Username"),
        required: true,
    };
    let mut options: Vec<CommandOption> = Vec::new();
    options.push(option);
    CommandDescriptor { name: String::from_str("verify"), description: String::from_str(
        "Get some GitHub information",
    ), options }
}

/// One resolved option value of an invocation, as far as the guard reads it:
/// either a string value, or a value of any other type.
pub enum ResolvedArg {
    Text(String),
    Other,
}

/// Inspects the invocation's options. When the first option is a string, the
/// lookup may proceed: the result carries the request URL for that username.
/// When there is no first option or it is not a string, the result carries
/// the fixed invalid-input reply, and no lookup is to be attempted.
pub fn lookup_request(options: &Vec<ResolvedArg>) -> (r: Result<String, String>)
    ensures
        (options@.len() > 0 && options@[0] is Text) ==> (r is Ok && r->Ok_0@ == url_of(
            options@[0]->Text_0@,
        )),
        !(options@.len() > 0 && options@[0] is Text) ==> (r is Err && r->Err_0@
            == invalid_input_text()),
{
    if options.len() > 0 {
        match &options[0] {
            ResolvedArg::Text(username) => Ok(build_url(username.as_str())),
            ResolvedArg::Other => Err(invalid_input_reply()),
        }
    } else {
        Err(invalid_input_reply())
    }
}

} // verus!
