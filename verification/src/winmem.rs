//! The memory-list command of the operating system: what is handed to the
//! system call, and what its status means.

use crate::text::push_hex;
use vstd::prelude::*;
use vstd::string::StringExecFns;

verus! {

/// The information class that selects the memory lists.
pub const SYSTEM_MEMORY_LIST_INFORMATION: i32 = 0x50;

/// The size in bytes of the value that the system call reads.
pub const COMMAND_LENGTH: u32 = 4;

/// What the system is asked to do with its memory lists.
#[derive(Clone, Copy, Debug, PartialEq, Eq, Structural)]
pub enum MemoryListCommand {
    EmptyWorkingSets,
    FlushModifiedList,
    PurgeStandbyList,
    PurgeLowPriorityStandbyList,
}

/// The three arguments of the system call.
#[derive(Clone, Copy, Debug, PartialEq, Eq, Structural)]
pub struct MemoryListRequest {
    pub class: i32,
    pub value: i32,
    pub length: u32,
}

impl MemoryListCommand {
    /// The number by which the system knows the command.
    pub open spec fn number(self) -> i32 {
        match self {
            MemoryListCommand::EmptyWorkingSets => 2,
            MemoryListCommand::FlushModifiedList => 3,
            MemoryListCommand::PurgeStandbyList => 4,
            MemoryListCommand::PurgeLowPriorityStandbyList => 5,
        }
    }

    /// The number by which the system knows the command.
    pub fn code(self) -> (code: i32)
        ensures
            code == self.number(),
            2 <= code <= 5,
    {
        match self {
            MemoryListCommand::EmptyWorkingSets => 2,
            MemoryListCommand::FlushModifiedList => 3,
            MemoryListCommand::PurgeStandbyList => 4,
            MemoryListCommand::PurgeLowPriorityStandbyList => 5,
        }
    }

    /// What the system call is made with for this command.
    pub fn request(self) -> (request: MemoryListRequest)
        ensures
            request.class == SYSTEM_MEMORY_LIST_INFORMATION,
            request.value == self.number(),
            request.length == COMMAND_LENGTH,
    {
        MemoryListRequest {
            class: SYSTEM_MEMORY_LIST_INFORMATION,
            value: self.code(),
            length: COMMAND_LENGTH,
        }
    }
}

/// The bit pattern of a status, read as an unsigned number.
pub open spec fn status_bits(status: i32) -> nat {
    if status >= 0 {
        status as nat
    } else {
        (status + 0x1_0000_0000) as nat
    }
}

/// The message for a call that failed with this status.
pub open spec fn failure_text(status: i32) -> Seq<char> {
    "NTSTATUS 0x"@ + crate::text::hex(status_bits(status), 8)
        + " (có thể thiếu quyền Administrator)"@
}

/// The message where the system has no such call.
pub open spec fn unsupported_text() -> Seq<char> {
    "Chỉ hỗ trợ Windows."@
}

/// What the status of the system call means: zero is success, anything else is
/// a failure whose message names the status in hexadecimal.
pub fn status_result(status: i32) -> (result: Result<(), String>)
    ensures
        result is Ok <==> status == 0,
        result matches Err(message) ==> message@ == failure_text(status),
        result matches Err(message) ==> crate::text::value_of(message@.subrange(11, 19), 16)
            == status_bits(status),
        result matches Err(message) ==> crate::text::value_of(message@.subrange(11, 19), 16)
            == if status >= 0 {
            status as int
        } else {
            status + 0x1_0000_0000
        },
        result matches Err(message) ==> message@.len() >= 19 && message@.take(11) == "NTSTATUS 0x"@
            && message@.skip(19) == " (có thể thiếu quyền Administrator)"@,
{
    if status == 0 {
        Ok(())
    } else {
        let bits: u32 = #[verifier::truncate] (status as u32);
        assert(status >= 0 ==> bits == status) by (bit_vector)
            requires
                bits == status as u32,
        ;
        assert(status < 0 ==> bits == status + 0x1_0000_0000) by (bit_vector)
            requires
                bits == status as u32,
        ;
        let mut message: String = "NTSTATUS 0x".to_string();
        push_hex(&mut message, bits as u64, 8);
        message.append(" (có thể thiếu quyền Administrator)");
        proof {
            law_failure_text_reads_back(status);
            law_failure_text_holds_the_status(status);
        }
        Err(message)
    }
}

/// The command on a system that has no such call: it fails, whatever the
/// command is.
pub fn run_command(_cmd: MemoryListCommand) -> (result: Result<(), String>)
    ensures
        result matches Err(message) && message@ == unsupported_text(),
        result matches Err(message) && message@ == "Chỉ hỗ trợ Windows."@,
{
    Err("Chỉ hỗ trợ Windows.".to_string())
}

/// The numbers of the commands follow one another from two on, in the order in
/// which the modes are offered.
pub proof fn law_numbers_follow_the_modes(i: int)
    requires
        0 <= i < 4,
    ensures
        crate::mode::Mode::ALL@[i].command().number() == i + 2,
{
    assert(crate::mode::Mode::ALL@[0] == crate::mode::Mode::EmptyWorkingSets);
    assert(crate::mode::Mode::ALL@[1] == crate::mode::Mode::FlushModifiedList);
    assert(crate::mode::Mode::ALL@[2] == crate::mode::Mode::PurgeStandbyList);
    assert(crate::mode::Mode::ALL@[3] == crate::mode::Mode::PurgeLowPriorityStandbyList);
}

/// Two commands never share a number.
pub proof fn law_commands_have_distinct_numbers(a: MemoryListCommand, b: MemoryListCommand)
    ensures
        a.number() == b.number() <==> a == b,
{
}

/// The eight digits in the message of a failed call read back as the bit
/// pattern of the status.
pub proof fn law_failure_text_reads_back(status: i32)
    ensures
        failure_text(status).len() >= 19,
        crate::text::value_of(failure_text(status).subrange(11, 19), 16) == status_bits(status),
{
    reveal_strlit("NTSTATUS 0x");
    let bits = status_bits(status);
    crate::text::law_hex_reads_back(bits, 8);
    assert(crate::text::pow16(8) == 0x1_0000_0000) by {
        reveal_with_fuel(crate::text::pow16, 9);
    }
    assert(failure_text(status).subrange(11, 19) =~= crate::text::hex(bits, 8));
}

/// The message of a failed call is a fixed text around eight digits, which are
/// the status as it stands if it is not negative, and the status counted up from
/// two to the thirty-second if it is.
pub proof fn law_failure_text_holds_the_status(status: i32)
    ensures
        failure_text(status).len() >= 19,
        failure_text(status).take(11) == "NTSTATUS 0x"@,
        failure_text(status).skip(19) == " (có thể thiếu quyền Administrator)"@,
        crate::text::value_of(failure_text(status).subrange(11, 19), 16) == if status >= 0 {
            status as int
        } else {
            status + 0x1_0000_0000
        },
        forall|i: int|
            11 <= i < 19 ==> '0' <= #[trigger] failure_text(status)[i] <= '9' || 'A'
                <= failure_text(status)[i] <= 'F',
{
    reveal_strlit("NTSTATUS 0x");
    law_failure_text_reads_back(status);
    let digits = crate::text::hex(status_bits(status), 8);
    crate::text::law_hex_characters(status_bits(status), 8);
    assert(failure_text(status).take(11) =~= "NTSTATUS 0x"@);
    assert(failure_text(status).skip(19) =~= " (có thể thiếu quyền Administrator)"@);
    assert forall|i: int| 11 <= i < 19 implies '0' <= #[trigger] failure_text(status)[i] <= '9'
        || 'A' <= failure_text(status)[i] <= 'F' by {
        assert(failure_text(status)[i] == digits[i - 11]);
    }
}

/// The message of a failed call tells which status it was.
pub proof fn law_failure_text_names_the_status(a: i32, b: i32)
    ensures
        failure_text(a) == failure_text(b) <==> a == b,
{
    law_failure_text_reads_back(a);
    law_failure_text_reads_back(b);
}

} // verus!
