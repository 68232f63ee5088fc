//! Response assembly for one request: construct a freshly seeded store and a
//! domain entity, run the entity's logic, and build the structured response.
//! Decoding the incoming event and handing the response back to the host
//! runtime are the host's business, not the library's.

use vstd::prelude::*;
use vstd::string::StringExecFns;
use std::collections::HashMap;

use crate::domain::Dominio01;
use crate::persistence::lookup;
use crate::store::DummyPersistable;
use crate::store::seed_map;
use crate::store::sentinel_text;

verus! {

/// The structured response handed back to the host runtime: the echoed
/// request correlation identifier, a confirmation of the command, and the
/// message derived by the domain entity's logic.
pub struct Response {
    pub req_id: String,
    pub msg: String,
    pub dummy_msg: String,
}

/// The confirmation text for an executed command.
pub open spec fn msg_text(command: Seq<char>) -> Seq<char> {
    "Command "@ + command + " executed."@
}

/// The text wrapping the message that the domain logic derived.
pub open spec fn dummy_msg_text(message: Seq<char>) -> Seq<char> {
    "DummyMessage "@ + message + " ."@
}

/// Builds the confirmation text for `command`.
pub fn command_message(command: &str) -> (r: String)
    ensures
        r@ == msg_text(command@),
{
    String::from_str("Command ").concat(command).concat(" executed.")
}

/// Wraps the message derived by the domain logic.
pub fn dummy_message(message: &str) -> (r: String)
    ensures
        r@ == dummy_msg_text(message@),
{
    String::from_str("DummyMessage ").concat(message).concat(" .")
}

/// Handles one decoded request: seeds a request-scoped store, runs the
/// entity's logic under its identifier, and assembles the response. The
/// correlation identifier is echoed unchanged, and the derived message is
/// whatever the seeded store holds under the entity's identifier.
pub fn my_handler(req_id: String, command: String) -> (resp: Response)
    ensures
        resp.req_id@ == req_id@,
        resp.msg@ == msg_text(command@),
        resp.dummy_msg@ == dummy_msg_text(lookup(seed_map(), sentinel_text(), 1u32)),
{
    let mut m01 = Dominio01 { id: 1, message: String::new() };
    let mut dummy_repo = DummyPersistable { dummy_database: HashMap::new() };
    dummy_repo.init();
    let msg = m01.logic(&dummy_repo);

    Response {
        req_id,
        msg: command_message(command.as_str()),
        dummy_msg: dummy_message(msg.as_str()),
    }
}

} // verus!
