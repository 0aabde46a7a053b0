use clean_ram_vps::interval::{interval, intervals, INTERVAL_COUNT};
use clean_ram_vps::mode::Mode;
use clean_ram_vps::text::{push_decimal, push_hex};
use clean_ram_vps::winmem::{run_command, status_result, MemoryListCommand};

#[test]
fn command_numbers() {
    assert_eq!(MemoryListCommand::EmptyWorkingSets.code(), 2);
    assert_eq!(MemoryListCommand::FlushModifiedList.code(), 3);
    assert_eq!(MemoryListCommand::PurgeStandbyList.code(), 4);
    assert_eq!(MemoryListCommand::PurgeLowPriorityStandbyList.code(), 5);
}

#[test]
fn command_request() {
    let request = MemoryListCommand::PurgeStandbyList.request();
    assert_eq!(request.class, 0x50);
    assert_eq!(request.value, 4);
    assert_eq!(request.length as usize, std::mem::size_of::<i32>());
}

#[test]
fn status_zero_is_success() {
    assert_eq!(status_result(0), Ok(()));
}

#[test]
fn status_failure_is_named_in_hex() {
    // STATUS_PRIVILEGE_NOT_HELD
    assert_eq!(
        status_result(0xC0000061u32 as i32),
        Err("NTSTATUS 0xC0000061 (có thể thiếu quyền Administrator)".to_string())
    );
    assert_eq!(
        status_result(1),
        Err("NTSTATUS 0x00000001 (có thể thiếu quyền Administrator)".to_string())
    );
    assert_eq!(
        status_result(-1),
        Err("NTSTATUS 0xFFFFFFFF (có thể thiếu quyền Administrator)".to_string())
    );
}

#[test]
fn status_text_agrees_with_formatting() {
    for status in [i32::MIN, i32::MIN + 1, -77, 0x0ABCDEF1, 0x7FFF_FFFF, 16, 255] {
        assert_eq!(
            status_result(status),
            Err(format!(
                "NTSTATUS 0x{:08X} (có thể thiếu quyền Administrator)",
                status as u32
            ))
        );
    }
}

#[test]
fn statuses_have_distinct_texts() {
    assert_ne!(status_result(0x10), status_result(0x01));
    assert_ne!(status_result(-1), status_result(1));
}

#[test]
fn command_without_the_call_fails() {
    for mode in Mode::ALL {
        assert_eq!(
            run_command(mode.to_command()),
            Err("Chỉ hỗ trợ Windows.".to_string())
        );
    }
}

#[test]
fn modes_are_listed_in_order() {
    assert_eq!(
        Mode::ALL,
        [
            Mode::EmptyWorkingSets,
            Mode::FlushModifiedList,
            Mode::PurgeStandbyList,
            Mode::PurgeLowPriorityStandbyList,
        ]
    );
}

#[test]
fn mode_labels() {
    assert_eq!(Mode::EmptyWorkingSets.label(), "Empty Working Sets");
    assert_eq!(Mode::FlushModifiedList.label(), "Flush Modified List");
    assert_eq!(Mode::PurgeStandbyList.label(), "Purge Standby List");
    assert_eq!(
        Mode::PurgeLowPriorityStandbyList.label(),
        "Purge Low-Priority Standby List"
    );
}

#[test]
fn mode_descriptions() {
    assert_eq!(
        Mode::EmptyWorkingSets.description_vi(),
        "Đẩy bộ nhớ (working set) của tất cả tiến trình đang chạy về bộ nhớ đệm hệ thống. Không giảm RAM tổng thể ngay lập tức, chỉ 'gọn' lại bộ nhớ riêng của từng app."
    );
    assert_eq!(
        Mode::FlushModifiedList.description_vi(),
        "Ghi các trang nhớ 'đã sửa nhưng chưa lưu' (modified pages) xuống ổ đĩa/pagefile, giúp giải phóng chúng khỏi RAM."
    );
    assert_eq!(
        Mode::PurgeStandbyList.description_vi(),
        "Xóa toàn bộ bộ nhớ đệm hệ thống (standby list / cache file). Đây là phần Windows hiển thị là 'Cached' trong Task Manager. Giảm RAM 'used' rõ rệt nhất, nhưng có thể làm app mở lại chậm hơn."
    );
    assert_eq!(
        Mode::PurgeLowPriorityStandbyList.description_vi(),
        "Chỉ xóa phần cache ưu tiên thấp (ít dùng gần đây), giữ lại cache quan trọng. Nhẹ nhàng hơn Purge Standby List toàn bộ."
    );
}

#[test]
fn mode_commands() {
    assert_eq!(
        Mode::EmptyWorkingSets.to_command(),
        MemoryListCommand::EmptyWorkingSets
    );
    assert_eq!(
        Mode::FlushModifiedList.to_command(),
        MemoryListCommand::FlushModifiedList
    );
    assert_eq!(
        Mode::PurgeStandbyList.to_command(),
        MemoryListCommand::PurgeStandbyList
    );
    assert_eq!(
        Mode::PurgeLowPriorityStandbyList.to_command(),
        MemoryListCommand::PurgeLowPriorityStandbyList
    );
}

#[test]
fn interval_table() {
    let expected = [
        (5, "5 giây"),
        (30, "30 giây"),
        (60, "1 phút"),
        (120, "2 phút"),
        (300, "5 phút"),
        (600, "10 phút"),
        (900, "15 phút"),
        (1800, "30 phút"),
    ];
    let table = intervals();
    assert_eq!(table.len(), INTERVAL_COUNT);
    for i in 0..expected.len() {
        assert_eq!((table[i].secs, table[i].label), expected[i]);
        assert_eq!(interval(i), table[i]);
    }
}

#[test]
fn intervals_grow() {
    let table = intervals();
    for i in 1..table.len() {
        assert!(table[i - 1].secs < table[i].secs);
    }
}

#[test]
fn interval_labels_word_the_length() {
    for opt in intervals() {
        if opt.secs < 60 {
            assert_eq!(opt.label, format!("{} giây", opt.secs));
        } else {
            assert_eq!(opt.label, format!("{} phút", opt.secs / 60));
        }
    }
}

#[test]
fn decimal_text() {
    for n in [0, 7, 9, 10, 99, 100, 1024, 65535, u64::MAX - 1, u64::MAX] {
        let mut out = "n=".to_string();
        push_decimal(&mut out, n);
        assert_eq!(out, format!("n={}", n));
    }
}

#[test]
fn hex_text() {
    let mut out = String::new();
    push_hex(&mut out, 0xBEEF, 4);
    push_hex(&mut out, 0x1F, 1);
    push_hex(&mut out, 0xA, 3);
    push_hex(&mut out, 5, 0);
    assert_eq!(out, "BEEFF00A");
}

#[test]
fn status_reads_back_from_its_text() {
    for status in [1, -1, i32::MIN, i32::MAX, 0xC0000061u32 as i32, 0x0000_BEEF] {
        let message = status_result(status).unwrap_err();
        assert_eq!(u32::from_str_radix(&message[11..19], 16), Ok(status as u32));
    }
}
