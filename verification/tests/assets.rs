use ruvy::assets::{
    download, download_ruby_wasm, extract_tar, ruby_wasm_base_name, Download, DownloadAction, DownloadError,
    DownloadEvent, DownloadPhase, ExtractAction, ExtractError, ExtractEvent, ExtractPhase, Frame, Location,
    ResponseHead, TarCommand, TarOutput,
};

fn head(status: u16, location: Location) -> DownloadEvent {
    DownloadEvent::Responded(Ok(ResponseHead { status, location }))
}

fn requesting(uri: &str, file: &str) -> Download {
    let (mut transfer, first) = download(uri.to_string(), file.to_string());
    assert_eq!(first, DownloadAction::Probe);
    assert_eq!(transfer.step(DownloadEvent::Probed(Ok(false))), DownloadAction::Get(uri.to_string()));
    transfer
}

#[test]
fn base_name_joins_the_pinned_parts() {
    assert_eq!(ruby_wasm_base_name(), "2.1.0-ruby-3_2-wasm32-unknown-wasi-minimal");
}

#[test]
fn release_archive_address() {
    let (d, first) = download_ruby_wasm("ruby.tar.gz".to_string());
    assert_eq!(
        d.uri,
        "https://github.com/ruby/ruby.wasm/releases/download/2.1.0/ruby-3_2-wasm32-unknown-wasi-minimal.tar.gz"
    );
    assert_eq!(d.file_name, "ruby.tar.gz");
    assert_eq!(d.phase, DownloadPhase::Probing);
    assert_eq!(first, DownloadAction::Probe);
}

#[test]
fn existing_target_is_not_downloaded_again() {
    let (mut transfer, _) = download("https://example.org/a".to_string(), "a".to_string());
    assert_eq!(transfer.step(DownloadEvent::Probed(Ok(true))), DownloadAction::Finish(Ok(())));
    assert_eq!(transfer.phase, DownloadPhase::Finished);
}

#[test]
fn redirects_are_followed_until_the_body_is_written() {
    let mut transfer = requesting("https://example.org/a", "a.tar.gz");
    assert_eq!(
        transfer.step(head(302, Location::Present("https://cdn.example.org/b".to_string()))),
        DownloadAction::Get("https://cdn.example.org/b".to_string())
    );
    assert_eq!(transfer.uri, "https://cdn.example.org/b");
    assert_eq!(
        transfer.step(head(301, Location::Present("https://cdn.example.org/c".to_string()))),
        DownloadAction::Get("https://cdn.example.org/c".to_string())
    );
    assert_eq!(transfer.step(head(200, Location::Absent)), DownloadAction::Create);
    assert_eq!(transfer.step(DownloadEvent::Created(Ok(()))), DownloadAction::NextFrame);
    assert_eq!(
        transfer.step(DownloadEvent::Received(Frame::Data(vec![1, 2, 3]))),
        DownloadAction::Write(vec![1, 2, 3])
    );
    assert_eq!(transfer.step(DownloadEvent::Written(Ok(()))), DownloadAction::NextFrame);
    assert_eq!(transfer.step(DownloadEvent::Received(Frame::Other)), DownloadAction::NextFrame);
    assert_eq!(transfer.step(DownloadEvent::Received(Frame::Data(vec![4]))), DownloadAction::Write(vec![4]));
    assert_eq!(transfer.step(DownloadEvent::Written(Ok(()))), DownloadAction::NextFrame);
    assert_eq!(transfer.step(DownloadEvent::Received(Frame::End)), DownloadAction::Finish(Ok(())));
    assert_eq!(transfer.phase, DownloadPhase::Finished);
}

#[test]
fn status_classes_have_their_bounds() {
    for (status, expected) in [(199u16, false), (200, true), (299, true), (400, false), (404, false), (500, false)] {
        let mut transfer = requesting("https://example.org/a", "a");
        let action = transfer.step(head(status, Location::Absent));
        assert_eq!(action == DownloadAction::Create, expected, "status {}", status);
    }
    for status in [300u16, 307, 399] {
        let mut transfer = requesting("https://example.org/a", "a");
        let action = transfer.step(head(status, Location::Present("https://example.org/b".to_string())));
        assert_eq!(action, DownloadAction::Get("https://example.org/b".to_string()));
    }
}

#[test]
fn redirect_without_location_fails() {
    let mut transfer = requesting("https://example.org/a", "ruby.tar.gz");
    let action = transfer.step(head(302, Location::Absent));
    assert_eq!(
        action,
        DownloadAction::Finish(Err(DownloadError::MissingLocation { file: "ruby.tar.gz".to_string() }))
    );
    assert_eq!(
        DownloadError::MissingLocation { file: "ruby.tar.gz".to_string() }.message(),
        "Received redirect without location header when downloading ruby.tar.gz from GitHub"
    );
    let mut transfer = requesting("https://example.org/a", "ruby.tar.gz");
    assert_eq!(
        transfer.step(head(302, Location::Unreadable("failed to convert header to a str".to_string()))),
        DownloadAction::Finish(Err(DownloadError::UnreadableLocation("failed to convert header to a str".to_string())))
    );
}

#[test]
fn failure_status_is_written_out_with_its_reason() {
    let mut transfer = requesting("https://example.org/a", "ruby.tar.gz");
    let action = transfer.step(head(404, Location::Present("https://example.org/ignored".to_string())));
    assert_eq!(
        action,
        DownloadAction::Finish(Err(DownloadError::Status { code: 404, file: "ruby.tar.gz".to_string() }))
    );
    assert_eq!(
        DownloadError::Status { code: 404, file: "ruby.tar.gz".to_string() }.message(),
        "Received 404 Not Found when downloading from ruby.tar.gz"
    );
    assert_eq!(
        DownloadError::Status { code: 503, file: "r".to_string() }.message(),
        "Received 503 Service Unavailable when downloading from r"
    );
    assert_eq!(
        DownloadError::Status { code: 99, file: "r".to_string() }.message(),
        "Received 99 when downloading from r"
    );
    assert_eq!(
        DownloadError::Status { code: 1000, file: "r".to_string() }.message(),
        "Received 1000 when downloading from r"
    );
}

#[test]
fn every_reported_failure_ends_the_transfer() {
    let (mut transfer, _) = download("u".to_string(), "f".to_string());
    assert_eq!(
        transfer.step(DownloadEvent::Probed(Err("permission denied".to_string()))),
        DownloadAction::Finish(Err(DownloadError::Probe("permission denied".to_string())))
    );
    let mut transfer = requesting("u", "f");
    assert_eq!(
        transfer.step(DownloadEvent::Responded(Err("invalid uri".to_string()))),
        DownloadAction::Finish(Err(DownloadError::Request("invalid uri".to_string())))
    );
    let mut transfer = requesting("u", "f");
    transfer.step(head(200, Location::Absent));
    assert_eq!(
        transfer.step(DownloadEvent::Created(Err("read-only file system".to_string()))),
        DownloadAction::Finish(Err(DownloadError::Create("read-only file system".to_string())))
    );
    let mut transfer = requesting("u", "f");
    transfer.step(head(200, Location::Absent));
    transfer.step(DownloadEvent::Created(Ok(())));
    assert_eq!(
        transfer.step(DownloadEvent::Received(Frame::Broken("connection reset".to_string()))),
        DownloadAction::Finish(Err(DownloadError::Body("connection reset".to_string())))
    );
    let mut transfer = requesting("u", "f");
    transfer.step(head(200, Location::Absent));
    transfer.step(DownloadEvent::Created(Ok(())));
    transfer.step(DownloadEvent::Received(Frame::Data(vec![1])));
    assert_eq!(
        transfer.step(DownloadEvent::Written(Err("no space left on device".to_string()))),
        DownloadAction::Finish(Err(DownloadError::Write("no space left on device".to_string())))
    );
    assert_eq!(transfer.phase, DownloadPhase::Finished);
    assert_eq!(DownloadError::Write("no space left on device".to_string()).message(), "no space left on device");
}

#[test]
fn download_out_of_turn_ends_the_transfer() {
    let (mut transfer, _) = download("u".to_string(), "f".to_string());
    assert_eq!(
        transfer.step(head(200, Location::Absent)),
        DownloadAction::Finish(Err(DownloadError::OutOfTurn))
    );
    assert_eq!(
        transfer.step(DownloadEvent::Probed(Ok(false))),
        DownloadAction::Finish(Err(DownloadError::OutOfTurn))
    );
    assert_eq!(DownloadError::OutOfTurn.message(), "download driven out of turn");
}

fn tar(archive: &str, directory: &str, strip: &str) -> TarCommand {
    TarCommand {
        program: "tar".to_string(),
        args: vec!["-xf".to_string(), archive.to_string(), "--strip-components".to_string(), strip.to_string()],
        directory: directory.to_string(),
    }
}

#[test]
fn archive_is_unpacked_into_an_existing_directory() {
    let (mut extraction, first) = extract_tar("ruby.tar.gz".to_string(), "out".to_string(), 1);
    assert_eq!(first, ExtractAction::Probe("out".to_string()));
    assert_eq!(extraction.command, Some(tar("ruby.tar.gz", "out", "1")));
    assert_eq!(
        extraction.step(ExtractEvent::Probed(true)),
        ExtractAction::Run(tar("ruby.tar.gz", "out", "1"))
    );
    assert_eq!(
        extraction.step(ExtractEvent::Ran(Ok(TarOutput { success: true, stderr: "".to_string() }))),
        ExtractAction::Finish(Ok(()))
    );
    assert_eq!(extraction.phase, ExtractPhase::Finished);
}

#[test]
fn missing_directory_is_created_first() {
    let (mut extraction, _) = extract_tar("a.tar".to_string(), "deep/out".to_string(), -2);
    assert_eq!(extraction.step(ExtractEvent::Probed(false)), ExtractAction::CreateDirectory("deep/out".to_string()));
    assert_eq!(
        extraction.step(ExtractEvent::Created(Ok(()))),
        ExtractAction::Run(tar("a.tar", "deep/out", "-2"))
    );
    let (mut extraction, _) = extract_tar("a.tar".to_string(), "deep/out".to_string(), 0);
    extraction.step(ExtractEvent::Probed(false));
    assert_eq!(
        extraction.step(ExtractEvent::Created(Err("No such file or directory (os error 2)".to_string()))),
        ExtractAction::Finish(Err(ExtractError::CreateDirectory("No such file or directory (os error 2)".to_string())))
    );
}

#[test]
fn failed_unpacking_reports_what_tar_wrote() {
    let (mut extraction, _) = extract_tar("ruby.tar.gz".to_string(), "out".to_string(), 1);
    extraction.step(ExtractEvent::Probed(true));
    let action = extraction.step(ExtractEvent::Ran(Ok(TarOutput {
        success: false,
        stderr: "tar: Error opening archive".to_string(),
    })));
    assert_eq!(
        action,
        ExtractAction::Finish(Err(ExtractError::Failed {
            archive: "ruby.tar.gz".to_string(),
            stderr: "tar: Error opening archive".to_string(),
        }))
    );
    match action {
        ExtractAction::Finish(Err(error)) => {
            assert_eq!(error.message(), "Unpacking ruby.tar.gz failed: tar: Error opening archive")
        }
        _ => unreachable!(),
    }
}

#[test]
fn tar_that_cannot_be_run_fails_the_extraction() {
    let (mut extraction, _) = extract_tar("ruby.tar.gz".to_string(), "out".to_string(), 1);
    extraction.step(ExtractEvent::Probed(true));
    assert_eq!(
        extraction.step(ExtractEvent::Ran(Err("No such file or directory (os error 2)".to_string()))),
        ExtractAction::Finish(Err(ExtractError::Spawn("No such file or directory (os error 2)".to_string())))
    );
    assert_eq!(
        extraction.step(ExtractEvent::Probed(true)),
        ExtractAction::Finish(Err(ExtractError::OutOfTurn))
    );
    assert_eq!(ExtractError::OutOfTurn.message(), "extraction driven out of turn");
    assert_eq!(ExtractError::Spawn("x".to_string()).message(), "x");
    assert_eq!(ExtractError::CreateDirectory("y".to_string()).message(), "y");
}
