use src_dst_clarifier::ioers::{
    Acquire, AnyInput, AnyOutput, ClarifiedIo, Input, Output, ReadFile, ReadStdin, Unsupported,
    WriteFile, WriteStdout,
};

#[test]
fn read_file_is_opened_on_the_first_request_only() {
    let mut handle = ReadFile::new("/photos/a.jpg");
    assert_eq!(handle.reader(), Acquire::Open("/photos/a.jpg".to_string()));
    assert_eq!(handle.reader(), Acquire::Cached);
    assert_eq!(handle.reader(), Acquire::Cached);
}

#[test]
fn write_file_is_created_on_the_first_request_only() {
    let mut handle = WriteFile::new("/out/a.png");
    assert_eq!(handle.writer(), Acquire::Open("/out/a.png".to_string()));
    assert_eq!(handle.writer(), Acquire::Cached);
}

#[test]
fn standard_streams_are_never_opened() {
    let mut input = ReadStdin::new();
    assert_eq!(input.reader(), Acquire::Standard);
    assert_eq!(input.reader(), Acquire::Standard);
    let mut output = WriteStdout::new();
    assert_eq!(output.writer(), Acquire::Standard);
    assert_eq!(output.writer(), Acquire::Standard);
}

#[test]
fn write_file_reports_its_extension() {
    assert_eq!(WriteFile::new("/out/a.png").extension(), Some("png".to_string()));
    assert_eq!(WriteFile::new("/out/a").extension(), Some(String::new()));
    assert_eq!(WriteFile::new("/out.d/a").extension(), Some(String::new()));
    assert_eq!(WriteFile::new("/out/.hidden").extension(), Some(String::new()));
}

#[test]
fn write_file_reports_its_path() {
    assert_eq!(WriteFile::new("/out/a.png").dst_path(), Some("/out/a.png".to_string()));
    assert_eq!(WriteStdout::new().dst_path(), None);
}

#[test]
fn set_file_name_renames_within_the_directory() {
    let mut handle = WriteFile::new("/out/a.png");
    assert_eq!(handle.set_file_name("a.jpg"), Ok(()));
    assert_eq!(handle.dst_path(), Some("/out/a.jpg".to_string()));
    assert_eq!(handle.extension(), Some("jpg".to_string()));
    assert_eq!(handle.writer(), Acquire::Open("/out/a.jpg".to_string()));
}

#[test]
fn remove_dst_removes_an_empty_file() {
    let mut handle = WriteFile::new("/out/a.png");
    assert_eq!(handle.writer(), Acquire::Open("/out/a.png".to_string()));
    assert_eq!(handle.remove_dst(0), Ok(true));
    assert_eq!(handle.writer(), Acquire::Open("/out/a.png".to_string()));
}

#[test]
fn remove_dst_keeps_a_file_that_holds_something() {
    let mut handle = WriteFile::new("/out/a.png");
    assert_eq!(handle.writer(), Acquire::Open("/out/a.png".to_string()));
    assert_eq!(handle.remove_dst(1), Ok(false));
    assert_eq!(handle.remove_dst(u64::MAX), Ok(false));
    assert_eq!(handle.writer(), Acquire::Cached);
}

#[test]
fn remove_dst_anyway_lets_go_of_the_writer() {
    let mut handle = WriteFile::new("/out/a.png");
    assert_eq!(handle.writer(), Acquire::Open("/out/a.png".to_string()));
    assert_eq!(handle.remove_dst_anyway(), Ok(()));
    assert_eq!(handle.writer(), Acquire::Open("/out/a.png".to_string()));
}

#[test]
fn standard_output_has_no_file_to_work_on() {
    let mut handle = WriteStdout::new();
    assert_eq!(handle.extension(), None);
    assert_eq!(handle.set_file_name("a.png"), Err(Unsupported));
    assert_eq!(handle.remove_dst(0), Err(Unsupported));
    assert_eq!(handle.remove_dst(7), Err(Unsupported));
    assert_eq!(handle.remove_dst_anyway(), Err(Unsupported));
}

#[test]
fn clarified_io_hands_each_request_to_its_slot() {
    let mut io = ClarifiedIo::new(
        AnyInput::File(ReadFile::new("/in/a.jpg")),
        AnyOutput::File(WriteFile::new("/out/a.png")),
    );
    assert_eq!(io.reader(), Acquire::Open("/in/a.jpg".to_string()));
    assert_eq!(io.reader(), Acquire::Cached);
    assert_eq!(io.extension(), Some("png".to_string()));
    assert_eq!(io.set_file_name("a.webp"), Ok(()));
    assert_eq!(io.dst_path(), Some("/out/a.webp".to_string()));
    assert_eq!(io.writer(), Acquire::Open("/out/a.webp".to_string()));
    assert_eq!(io.writer(), Acquire::Cached);
    assert_eq!(io.remove_dst(3), Ok(false));
    assert_eq!(io.remove_dst(0), Ok(true));
    assert_eq!(io.writer(), Acquire::Open("/out/a.webp".to_string()));
    assert_eq!(io.remove_dst_anyway(), Ok(()));
}

#[test]
fn clarified_io_slots_are_replaced_one_at_a_time() {
    let mut io = ClarifiedIo::new(
        AnyInput::Stdin(ReadStdin::new()),
        AnyOutput::Stdout(WriteStdout::new()),
    );
    assert_eq!(io.reader(), Acquire::Standard);
    assert_eq!(io.writer(), Acquire::Standard);
    assert_eq!(io.extension(), None);
    assert_eq!(io.set_file_name("a.png"), Err(Unsupported));

    io.with_output(AnyOutput::File(WriteFile::new("/out/a.png")));
    assert_eq!(io.reader(), Acquire::Standard);
    assert_eq!(io.writer(), Acquire::Open("/out/a.png".to_string()));

    io.with_input(AnyInput::File(ReadFile::new("/in/a.jpg")));
    assert_eq!(io.reader(), Acquire::Open("/in/a.jpg".to_string()));
    assert_eq!(io.writer(), Acquire::Cached);
}
