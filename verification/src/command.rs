//! The commands that are sent to the sentinels.

use redis::Cmd;
use vstd::prelude::*;
use vstd::string::StringSliceAdditionalSpecFns;

verus! {

/// A command of the `redis` crate: a list of arguments, of which the first
/// is the command's name.
#[verifier::external_type_specification]
#[verifier::external_body]
pub struct ExCmd(Cmd);

/// The arguments that `command` holds, in the order in which they were
/// appended, each as the bytes that are sent for it.
pub uninterp spec fn command_args(command: Cmd) -> Seq<Seq<u8>>;

/// `redis::cmd`: a new command whose only argument is `name`, as its UTF-8
/// bytes.
#[verifier::external_body]
fn command_named(name: &str) -> (command: Cmd)
    ensures
        command_args(command) == seq![name.spec_bytes()],
{
    redis::cmd(name)
}

/// `redis::Cmd::arg` with a string: appends the UTF-8 bytes of `arg` as one
/// more argument and leaves the earlier ones as they are.
#[verifier::external_body]
fn append_arg(command: &mut Cmd, arg: &str)
    ensures
        command_args(*final(command)) == command_args(*old(command)).push(arg.spec_bytes()),
{
    command.arg(arg);
}

/// The arguments of the question "where is the master of `group`": the
/// command `SENTINEL`, its subcommand and the group's name.
pub open spec fn master_query_args(group: Seq<char>) -> Seq<Seq<u8>> {
    seq![
        vstd::utf8::encode_utf8("SENTINEL"@),
        vstd::utf8::encode_utf8("get-master-addr-by-name"@),
        vstd::utf8::encode_utf8(group),
    ]
}

/// The command that asks the sentinels for the address of the master of the
/// group `name`.
pub fn get_master_from_sentinel_cmd(name: &str) -> (command: Cmd)
    ensures
        command_args(command) == master_query_args(name@),
{
    let mut command = command_named("SENTINEL");
    append_arg(&mut command, "get-master-addr-by-name");
    append_arg(&mut command, name);
    command
}

/// The topic on which the sentinels announce that a group has a new master.
pub open spec fn switch_master_topic_text() -> Seq<char> {
    "+switch-master"@
}

/// The topic on which the sentinels announce that a group has a new master.
pub fn switch_master_topic() -> (topic: &'static str)
    ensures
        topic@ == switch_master_topic_text(),
{
    "+switch-master"
}

} // verus!
