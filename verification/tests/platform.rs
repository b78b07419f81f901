//! Tests of the remaining kernel components: interrupt numbering, the
//! page-table walk decoding, the VGA colour encoding, the scan-code
//! queue, and the scheduling types.

use kernel::interrupts::{InterruptIndex, PIC_1_OFFSET, PIC_2_OFFSET};
use kernel::keyboard::{ScanCodeStream, SCANCODE_QUEUE_CAPACITY};
use kernel::memory::{
    page_offset, page_table_index, walk_step, BootInfoFrameAllocator, EmptyFrameAllocator,
    MemoryRegion, WalkError,
};
use kernel::sched::{ExitState, Pid, Scheduler, State, TaskStruct};
use kernel::vga_buffer::{Color, ColorCode, Writer, BUFFER_HEIGHT, BUFFER_WIDTH};

#[test]
fn interrupt_vectors() {
    assert_eq!(PIC_1_OFFSET, 32);
    assert_eq!(PIC_2_OFFSET, 40);
    assert_eq!(InterruptIndex::Timer.as_u8(), 32);
    assert_eq!(InterruptIndex::Keyboard.as_u8(), 33);
    assert_eq!(InterruptIndex::HardDisk.as_u8(), 46);
    assert_eq!(InterruptIndex::SystemCall.as_u8(), 0x80);
    assert_eq!(InterruptIndex::Keyboard.as_usize(), 33);
}

#[test]
fn empty_frame_allocator_never_allocates() {
    let mut fa = EmptyFrameAllocator;
    assert_eq!(fa.allocate_frame(), None);
}

#[test]
fn boot_info_frames_come_from_usable_regions() {
    let map = vec![
        // a reserved region contributes nothing
        MemoryRegion { start: 0, end: 0x5000, usable: false },
        // two whole frames
        MemoryRegion { start: 0x10000, end: 0x12000, usable: true },
        // an unaligned tail still counts as a started frame, aligned down
        MemoryRegion { start: 0x20000, end: 0x20800, usable: true },
    ];
    let mut fa = BootInfoFrameAllocator::init(map);
    assert_eq!(fa.allocate_frame(), Some(0x10000));
    assert_eq!(fa.allocate_frame(), Some(0x11000));
    assert_eq!(fa.allocate_frame(), Some(0x20000));
    assert_eq!(fa.allocate_frame(), None);
    // the cursor keeps moving: earlier frames are never handed out again
    assert_eq!(fa.allocate_frame(), None);
}

#[test]
fn page_table_walk_decoding() {
    // present, non-huge entry pointing at frame 0x1000
    assert_eq!(walk_step(0x1003), Ok(0x1000));
    // present bit clear
    assert_eq!(walk_step(0x1000), Err(WalkError::NotPresent));
    // huge bit set
    assert_eq!(walk_step(0x1083), Err(WalkError::HugeFrame));
    // only the frame bits survive: flag bits and the sign-extension bits
    // above bit 51 are masked off
    assert_eq!(walk_step(0xfff0_0000_0000_1f7f), Ok(0x1000));
}

#[test]
fn virtual_address_slicing() {
    let addr: u64 = (3 << 39) | (5 << 30) | (7 << 21) | (9 << 12) | 0x123;
    assert_eq!(page_table_index(addr, 4), 3);
    assert_eq!(page_table_index(addr, 3), 5);
    assert_eq!(page_table_index(addr, 2), 7);
    assert_eq!(page_table_index(addr, 1), 9);
    assert_eq!(page_offset(addr), 0x123);
}

#[test]
fn color_codes() {
    assert_eq!(Color::Black.code(), 0);
    assert_eq!(Color::White.code(), 15);
    assert_eq!(Color::Yellow.code(), 14);
    // yellow on black: background high nibble, foreground low nibble
    assert_eq!(ColorCode::new(Color::Yellow, Color::Black).0, 0x0e);
    assert_eq!(ColorCode::new(Color::Blue, Color::Red).0, 0x41);
}

fn last_row_text(w: &Writer) -> String {
    let base = (BUFFER_HEIGHT - 1) * BUFFER_WIDTH;
    w.buffer[base..base + BUFFER_WIDTH].iter().map(|c| c.ascii_character as char).collect()
}

#[test]
fn writer_fills_last_row() {
    let mut w = Writer::new(Color::Yellow, Color::Black);
    w.write_string(b"hello");
    assert_eq!(&last_row_text(&w)[..5], "hello");
    assert_eq!(w.column_position, 5);
    // unprintable bytes show as the replacement glyph
    w.write_string(&[0x01]);
    assert_eq!(w.buffer[(BUFFER_HEIGHT - 1) * BUFFER_WIDTH + 5].ascii_character, 0xfe);
}

#[test]
fn writer_newline_scrolls() {
    let mut w = Writer::new(Color::White, Color::Blue);
    w.write_string(b"abc\n");
    // the line moved up one row and the cursor returned to column 0
    let second_last = (BUFFER_HEIGHT - 2) * BUFFER_WIDTH;
    assert_eq!(w.buffer[second_last].ascii_character, b'a');
    assert_eq!(w.buffer[second_last + 2].ascii_character, b'c');
    assert_eq!(w.column_position, 0);
    assert_eq!(last_row_text(&w), " ".repeat(BUFFER_WIDTH));
}

#[test]
fn writer_wraps_a_full_row() {
    let mut w = Writer::new(Color::White, Color::Black);
    for _ in 0..BUFFER_WIDTH {
        w.write_byte(b'x');
    }
    assert_eq!(w.column_position, BUFFER_WIDTH);
    w.write_byte(b'y');
    // the full row scrolled up and the new byte starts the fresh row
    assert_eq!(w.column_position, 1);
    assert_eq!(w.buffer[(BUFFER_HEIGHT - 2) * BUFFER_WIDTH].ascii_character, b'x');
    assert_eq!(w.buffer[(BUFFER_HEIGHT - 1) * BUFFER_WIDTH].ascii_character, b'y');
}

#[test]
fn scan_code_queue_is_fifo() {
    let mut stream = ScanCodeStream::new();
    assert_eq!(stream.poll_next(), None);
    assert!(stream.add_scan_code(0x1e));
    assert!(stream.add_scan_code(0x30));
    assert_eq!(stream.poll_next(), Some(0x1e));
    assert_eq!(stream.poll_next(), Some(0x30));
    assert_eq!(stream.poll_next(), None);
}

#[test]
fn scan_code_queue_drops_when_full() {
    let mut stream = ScanCodeStream::new();
    for i in 0..SCANCODE_QUEUE_CAPACITY {
        assert!(stream.add_scan_code(i as u8));
    }
    // the queue is bounded: the next code is dropped, not queued
    assert!(!stream.add_scan_code(0xff));
    assert_eq!(stream.poll_next(), Some(0));
    // one slot is free again
    assert!(stream.add_scan_code(0xff));
}

struct FifoScheduler {
    queue: Vec<TaskStruct>,
}

impl Scheduler for FifoScheduler {
    fn enqueue_task(&mut self, task: TaskStruct) {
        self.queue.push(task);
    }

    fn dequeue_task(&mut self) -> Option<TaskStruct> {
        if self.queue.is_empty() {
            None
        } else {
            Some(self.queue.remove(0))
        }
    }
}

#[test]
fn scheduler_trait_round_trip() {
    let mut sched = FifoScheduler { queue: Vec::new() };
    sched.enqueue_task(TaskStruct {
        state: State::Runnable,
        exit_state: ExitState::Zombie,
        pid: Pid(7),
        kernel_stack_addr: 0xffff_8000_0000_0000,
    });
    let task = sched.dequeue_task().expect("one task was queued");
    assert_eq!(task.pid, Pid(7));
    assert!(matches!(task.state, State::Runnable));
    assert!(sched.dequeue_task().is_none());
}
