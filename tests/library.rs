use probe_cli::command::{select_core, Command, CommandPlan, ErrorKind};
use probe_cli::dump::{dump_range_valid, dump_rows, DumpRow};
use probe_cli::image::{bin_region, BinOptions, DownloadFileType, ImageFormat};
use probe_cli::numeral::parse_u32;
use probe_cli::sampler::{elapsed_millis, stamp_readings, wait_ms, Sample, Sampler, PERIOD_MS};
use probe_cli::shell::{run_events, step, LoopControl, ShellAction, ShellEvent, ShellOutcome, ShellState};

fn line_text(row: &DumpRow) -> String {
    String::from_utf8(row.line()).unwrap()
}

fn bin_options(format: ImageFormat) -> BinOptions {
    match format {
        ImageFormat::Bin(options) => options,
        other => panic!("not a raw binary: {:?}", other),
    }
}

#[test]
fn dump_four_words_from_ram() {
    let memory: Vec<u8> = vec![1, 0, 0, 0, 2, 0, 0, 0, 3, 0, 0, 0, 4, 0, 0, 0];
    let loc = parse_u32("0x20000000").unwrap();
    let words = parse_u32("4").unwrap();
    assert!(dump_range_valid(loc, words));
    let data: Vec<u32> = memory
        .chunks(4)
        .map(|c| u32::from_le_bytes([c[0], c[1], c[2], c[3]]))
        .collect();
    assert_eq!(data.len(), words as usize);
    let rows = dump_rows(loc, &data);
    let lines: Vec<String> = rows.iter().map(line_text).collect();
    assert_eq!(
        lines,
        vec![
            "Addr 0x20000000: 0x00000001",
            "Addr 0x20000004: 0x00000002",
            "Addr 0x20000008: 0x00000003",
            "Addr 0x2000000c: 0x00000004",
        ]
    );
}

#[test]
fn dump_of_zero_words_reports_nothing() {
    assert!(dump_range_valid(0x2000_0000, 0));
    assert!(dump_rows(0x2000_0000, &Vec::new()).is_empty());
}

#[test]
fn dump_rows_follow_address_order() {
    let rows = dump_rows(0x100, &vec![7, 8, 9]);
    assert_eq!(
        rows,
        vec![
            DumpRow { address: 0x100, value: 7 },
            DumpRow { address: 0x104, value: 8 },
            DumpRow { address: 0x108, value: 9 },
        ]
    );
}

#[test]
fn dump_range_at_the_top_of_memory() {
    assert!(dump_range_valid(0xffff_fffc, 1));
    assert!(!dump_range_valid(0xffff_fffc, 2));
    assert!(dump_range_valid(0, 0x4000_0000));
    assert!(!dump_range_valid(4, 0x4000_0000));
    let rows = dump_rows(0xffff_fff8, &vec![0xdead_beef, 0x0123_abcd]);
    assert_eq!(line_text(&rows[0]), "Addr 0xfffffff8: 0xdeadbeef");
    assert_eq!(line_text(&rows[1]), "Addr 0xfffffffc: 0x0123abcd");
}

#[test]
fn bin_download_skips_and_places_bytes() {
    let format = DownloadFileType::from_token("bin").unwrap().into(
        Some(parse_u32("0x0").unwrap()),
        Some(parse_u32("4").unwrap()),
    );
    let options = bin_options(format);
    let file: Vec<u8> = vec![0xAA, 0xBB, 0xCC, 0xDD, 0xEE, 0xFF, 0x00, 0x11];
    let region = bin_region(options, &file);
    assert_eq!(region.address, 0);
    assert_eq!(region.data, vec![0xEE, 0xFF, 0x00, 0x11]);
}

#[test]
fn bin_download_at_base_address() {
    let options = bin_options(DownloadFileType::Bin.into(Some(0x0800_0000), None));
    let region = bin_region(options, &vec![1, 2, 3]);
    assert_eq!(region.address, 0x0800_0000);
    assert_eq!(region.data, vec![1, 2, 3]);
}

#[test]
fn bin_skip_past_the_end_loads_nothing() {
    let options = BinOptions { base_address: None, skip: 9 };
    let region = bin_region(options, &vec![1, 2, 3]);
    assert_eq!(region.address, 0);
    assert!(region.data.is_empty());
}

#[test]
fn loading_the_same_image_twice_gives_the_same_region() {
    let options = bin_options(DownloadFileType::Bin.into(Some(0x1000), Some(2)));
    let file: Vec<u8> = vec![9, 8, 7, 6, 5];
    let first = bin_region(options, &file);
    let second = bin_region(options, &file);
    assert_eq!(first.address, second.address);
    assert_eq!(first.data, second.data);
    assert_eq!(first.data, vec![7, 6, 5]);
}

#[test]
fn bin_without_overrides_resolves_to_defaults() {
    assert_eq!(
        DownloadFileType::Bin.into(None, None),
        ImageFormat::Bin(BinOptions { base_address: None, skip: 0 })
    );
}

#[test]
fn elf_and_hex_ignore_overrides() {
    assert_eq!(DownloadFileType::Elf.into(Some(0x100), Some(4)), ImageFormat::Elf);
    assert_eq!(DownloadFileType::Hex.into(Some(0x100), Some(4)), ImageFormat::Hex);
    assert_eq!(DownloadFileType::Elf.into(None, None), ImageFormat::Elf);
}

#[test]
fn format_tokens_ignore_case() {
    assert_eq!(DownloadFileType::from_token("elf"), Some(DownloadFileType::Elf));
    assert_eq!(DownloadFileType::from_token("ELF"), Some(DownloadFileType::Elf));
    assert_eq!(DownloadFileType::from_token("Hex"), Some(DownloadFileType::Hex));
    assert_eq!(DownloadFileType::from_token("bIN"), Some(DownloadFileType::Bin));
    assert_eq!(DownloadFileType::from_token("exe"), None);
    assert_eq!(DownloadFileType::from_token("elfs"), None);
    assert_eq!(DownloadFileType::from_token(""), None);
}

#[test]
fn numerals_in_each_radix() {
    assert_eq!(parse_u32("42").unwrap(), 42);
    assert_eq!(parse_u32("0x20000000").unwrap(), 0x2000_0000);
    assert_eq!(parse_u32("0xFFFFFFFF").unwrap(), u32::MAX);
    assert_eq!(parse_u32("0b101").unwrap(), 5);
    assert_eq!(parse_u32("0o17").unwrap(), 15);
    assert_eq!(parse_u32("4294967295").unwrap(), u32::MAX);
}

#[test]
fn malformed_numerals_are_rejected() {
    assert!(parse_u32("4294967296").is_err());
    assert!(parse_u32("0x100000000").is_err());
    assert!(parse_u32("zz").is_err());
    assert!(parse_u32("0x").is_err());
    assert!(parse_u32("").is_err());
    assert!(parse_u32("0b2").is_err());
}

#[test]
fn sample_record_is_eight_little_endian_bytes() {
    let record = Sample { timestamp_ms: 0x0102_0304, value: 0xAABB_CCDD }.encode();
    assert_eq!(record, vec![0x04, 0x03, 0x02, 0x01, 0xDD, 0xCC, 0xBB, 0xAA]);
}

#[test]
fn sample_record_cuts_timestamp_to_32_bits() {
    let record = Sample { timestamp_ms: 0x1_0000_0005, value: 1 }.encode();
    assert_eq!(record, vec![5, 0, 0, 0, 1, 0, 0, 0]);
}

#[test]
fn sampler_timestamps_never_decrease() {
    let stamps = stamp_readings(&vec![0, 50, 101, 99, 150, 150, 203]);
    assert_eq!(stamps, vec![0, 50, 101, 101, 150, 150, 203]);
    assert!(stamps.windows(2).all(|w| w[0] <= w[1]));
}

#[test]
fn sampler_keeps_value_and_last_timestamp() {
    let mut sampler = Sampler::new();
    assert_eq!(sampler.last_ms(), 0);
    let first = sampler.sample(51, 7);
    assert_eq!(first, Sample { timestamp_ms: 51, value: 7 });
    let second = sampler.sample(40, 9);
    assert_eq!(second, Sample { timestamp_ms: 51, value: 9 });
    assert_eq!(sampler.last_ms(), 51);
}

#[test]
fn wait_reaches_the_next_grid_point() {
    assert_eq!(PERIOD_MS, 50);
    assert_eq!(wait_ms(0), 50);
    assert_eq!(wait_ms(37), 13);
    assert_eq!(wait_ms(120), 30);
    assert_eq!(wait_ms(149), 1);
    for e in [0u64, 1, 49, 50, 51, 999, 123_456] {
        let w = wait_ms(e);
        assert!(w >= 1 && w <= 50);
        assert_eq!((e + w) % 50, 0);
    }
}

#[test]
fn elapsed_in_whole_milliseconds() {
    assert_eq!(elapsed_millis(0, 0), 0);
    assert_eq!(elapsed_millis(3, 250), 3250);
    assert_eq!(elapsed_millis(12, 999), 12_999);
}

#[test]
fn stop_ends_the_shell_with_input_left() {
    let events = vec![
        ShellEvent::Handled(LoopControl::Continue),
        ShellEvent::Handled(LoopControl::Stop),
        ShellEvent::Handled(LoopControl::Continue),
        ShellEvent::EditError,
    ];
    assert_eq!(run_events(&events), (2, ShellOutcome::Finished));
}

#[test]
fn end_of_input_ends_the_shell_cleanly() {
    let events = vec![
        ShellEvent::Handled(LoopControl::Continue),
        ShellEvent::Handled(LoopControl::Continue),
        ShellEvent::EndOfInput,
        ShellEvent::Handled(LoopControl::Continue),
    ];
    assert_eq!(run_events(&events), (3, ShellOutcome::Finished));
    assert_eq!(
        step(ShellState::Running, ShellEvent::EndOfInput),
        (ShellState::Terminated, ShellAction::Finish)
    );
    assert_eq!(
        step(ShellState::Terminated, ShellEvent::EndOfInput),
        (ShellState::Terminated, ShellAction::Finish)
    );
}

#[test]
fn interrupt_and_edit_errors_end_the_shell() {
    assert_eq!(run_events(&vec![ShellEvent::Interrupted]), (1, ShellOutcome::Finished));
    assert_eq!(
        run_events(&vec![ShellEvent::Handled(LoopControl::Continue), ShellEvent::EditError]),
        (2, ShellOutcome::FinishedWithReport)
    );
    assert_eq!(
        step(ShellState::Running, ShellEvent::EditError),
        (ShellState::Terminated, ShellAction::ReportAndFinish)
    );
}

#[test]
fn shell_keeps_reading_while_handler_continues() {
    let events = vec![ShellEvent::Handled(LoopControl::Continue); 3];
    assert_eq!(run_events(&events), (3, ShellOutcome::AwaitingInput));
    assert_eq!(run_events(&Vec::new()), (0, ShellOutcome::AwaitingInput));
    assert_eq!(
        step(ShellState::Running, ShellEvent::Handled(LoopControl::Continue)),
        (ShellState::Running, ShellAction::ReadNext)
    );
}

#[test]
fn commands_acquire_session_and_core() {
    assert_eq!(Command::List.plan(0), CommandPlan { attach: false, core: None });
    assert_eq!(Command::Dump.plan(1), CommandPlan { attach: true, core: Some(1) });
    assert_eq!(Command::Trace.plan(0), CommandPlan { attach: true, core: Some(0) });
    assert_eq!(Command::Download.plan(3), CommandPlan { attach: true, core: None });
    assert_eq!(Command::Erase.plan(0), CommandPlan { attach: true, core: None });
    assert!(Command::Reset.needs_core());
    assert!(Command::Debug.needs_core());
    assert!(!Command::Info.needs_core());
    assert!(Command::Run.needs_session());
}

#[test]
fn core_index_out_of_range_is_rejected() {
    assert_eq!(select_core(0, 1), Ok(0));
    assert_eq!(select_core(1, 2), Ok(1));
    assert_eq!(select_core(1, 1), Err(ErrorKind::InvalidCoreIndex));
    assert_eq!(select_core(0, 0), Err(ErrorKind::InvalidCoreIndex));
}

#[test]
fn only_line_editing_failures_are_absorbed() {
    assert!(!ErrorKind::LineEditing.is_fatal());
    assert!(ErrorKind::Attach.is_fatal());
    assert!(ErrorKind::MemoryAccess.is_fatal());
    assert!(ErrorKind::FlashExecution.is_fatal());
}
