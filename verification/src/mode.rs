//! The cleaning modes that a user chooses from.

use crate::winmem::MemoryListCommand;
use vstd::prelude::*;

verus! {

/// What an empty-working-sets run does.
pub const EMPTY_WORKING_SETS_INFO: &'static str = "Đẩy bộ nhớ (working set) của tất cả tiến trình đang chạy về \
     bộ nhớ đệm hệ thống. Không giảm RAM tổng thể ngay lập tức, \
     chỉ 'gọn' lại bộ nhớ riêng của từng app.";

/// What a flush-modified-list run does.
pub const FLUSH_MODIFIED_LIST_INFO: &'static str = "Ghi các trang nhớ 'đã sửa nhưng chưa lưu' (modified pages) \
     xuống ổ đĩa/pagefile, giúp giải phóng chúng khỏi RAM.";

/// What a purge-standby-list run does.
pub const PURGE_STANDBY_LIST_INFO: &'static str = "Xóa toàn bộ bộ nhớ đệm hệ thống (standby list / cache file). \
     Đây là phần Windows hiển thị là 'Cached' trong Task Manager. \
     Giảm RAM 'used' rõ rệt nhất, nhưng có thể làm app mở lại chậm hơn.";

/// What a purge-low-priority-standby-list run does.
pub const PURGE_LOW_PRIORITY_STANDBY_LIST_INFO: &'static str = "Chỉ xóa phần cache ưu tiên thấp (ít dùng gần đây), giữ lại \
     cache quan trọng. Nhẹ nhàng hơn Purge Standby List toàn bộ.";

/// A way to clean memory.
#[derive(Clone, Copy, Debug, PartialEq, Eq, Structural)]
pub enum Mode {
    EmptyWorkingSets,
    FlushModifiedList,
    PurgeStandbyList,
    PurgeLowPriorityStandbyList,
}

impl Mode {
    /// Every mode, in the order in which they are offered.
    pub const ALL: [Mode; 4] = [
        Mode::EmptyWorkingSets,
        Mode::FlushModifiedList,
        Mode::PurgeStandbyList,
        Mode::PurgeLowPriorityStandbyList,
    ];

    /// The name shown for the mode.
    pub open spec fn name(self) -> Seq<char> {
        match self {
            Mode::EmptyWorkingSets => "Empty Working Sets"@,
            Mode::FlushModifiedList => "Flush Modified List"@,
            Mode::PurgeStandbyList => "Purge Standby List"@,
            Mode::PurgeLowPriorityStandbyList => "Purge Low-Priority Standby List"@,
        }
    }

    /// The explanation shown for the mode.
    pub open spec fn explanation(self) -> Seq<char> {
        match self {
            Mode::EmptyWorkingSets => EMPTY_WORKING_SETS_INFO@,
            Mode::FlushModifiedList => FLUSH_MODIFIED_LIST_INFO@,
            Mode::PurgeStandbyList => PURGE_STANDBY_LIST_INFO@,
            Mode::PurgeLowPriorityStandbyList => PURGE_LOW_PRIORITY_STANDBY_LIST_INFO@,
        }
    }

    /// The command that carries the mode out.
    pub open spec fn command(self) -> MemoryListCommand {
        match self {
            Mode::EmptyWorkingSets => MemoryListCommand::EmptyWorkingSets,
            Mode::FlushModifiedList => MemoryListCommand::FlushModifiedList,
            Mode::PurgeStandbyList => MemoryListCommand::PurgeStandbyList,
            Mode::PurgeLowPriorityStandbyList => MemoryListCommand::PurgeLowPriorityStandbyList,
        }
    }

    /// The name shown for the mode.
    pub fn label(&self) -> (label: &'static str)
        ensures
            label@ == self.name(),
    {
        match self {
            Mode::EmptyWorkingSets => "Empty Working Sets",
            Mode::FlushModifiedList => "Flush Modified List",
            Mode::PurgeStandbyList => "Purge Standby List",
            Mode::PurgeLowPriorityStandbyList => "Purge Low-Priority Standby List",
        }
    }

    /// A Vietnamese note on what the mode does, shown below the choice.
    pub fn description_vi(&self) -> (note: &'static str)
        ensures
            note@ == self.explanation(),
    {
        match self {
            Mode::EmptyWorkingSets => EMPTY_WORKING_SETS_INFO,
            Mode::FlushModifiedList => FLUSH_MODIFIED_LIST_INFO,
            Mode::PurgeStandbyList => PURGE_STANDBY_LIST_INFO,
            Mode::PurgeLowPriorityStandbyList => PURGE_LOW_PRIORITY_STANDBY_LIST_INFO,
        }
    }

    /// The command that carries the mode out.
    pub fn to_command(self) -> (cmd: MemoryListCommand)
        ensures
            cmd == self.command(),
    {
        match self {
            Mode::EmptyWorkingSets => MemoryListCommand::EmptyWorkingSets,
            Mode::FlushModifiedList => MemoryListCommand::FlushModifiedList,
            Mode::PurgeStandbyList => MemoryListCommand::PurgeStandbyList,
            Mode::PurgeLowPriorityStandbyList => MemoryListCommand::PurgeLowPriorityStandbyList,
        }
    }
}

/// Every mode is offered, and none twice.
pub proof fn law_all_lists_each_mode_once(mode: Mode)
    ensures
        exists|i: int| 0 <= i < 4 && #[trigger] Mode::ALL@[i] == mode,
        forall|i: int, j: int|
            0 <= i < 4 && 0 <= j < 4 && #[trigger] Mode::ALL@[i] == #[trigger] Mode::ALL@[j] ==> i == j,
{
    assert(Mode::ALL@[0] == Mode::EmptyWorkingSets);
    assert(Mode::ALL@[1] == Mode::FlushModifiedList);
    assert(Mode::ALL@[2] == Mode::PurgeStandbyList);
    assert(Mode::ALL@[3] == Mode::PurgeLowPriorityStandbyList);
}

/// Two modes never share a command.
pub proof fn law_modes_have_distinct_commands(a: Mode, b: Mode)
    ensures
        a.command() == b.command() <==> a == b,
{
}

/// Every command belongs to a mode.
pub proof fn law_each_command_has_a_mode(cmd: MemoryListCommand)
    ensures
        exists|mode: Mode| #[trigger] mode.command() == cmd,
{
    assert(Mode::EmptyWorkingSets.command() == MemoryListCommand::EmptyWorkingSets);
    assert(Mode::FlushModifiedList.command() == MemoryListCommand::FlushModifiedList);
    assert(Mode::PurgeStandbyList.command() == MemoryListCommand::PurgeStandbyList);
    assert(Mode::PurgeLowPriorityStandbyList.command()
        == MemoryListCommand::PurgeLowPriorityStandbyList);
}

/// The name shown tells which mode it is.
pub proof fn law_names_tell_modes_apart(a: Mode, b: Mode)
    ensures
        a.name() == b.name() <==> a == b,
{
    reveal_strlit("Empty Working Sets");
    reveal_strlit("Flush Modified List");
    reveal_strlit("Purge Standby List");
    reveal_strlit("Purge Low-Priority Standby List");
    assert("Empty Working Sets"@[0] == 'E');
    assert("Flush Modified List"@[0] == 'F');
    assert("Purge Standby List"@.len() != "Purge Low-Priority Standby List"@.len());
    assert("Purge Standby List"@[0] == 'P');
    assert("Purge Low-Priority Standby List"@[0] == 'P');
}

} // verus!
