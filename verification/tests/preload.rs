use ruvy::bridge::{EvalError, Value};
use ruvy::preload::{preload_files, Entry, Preload, PreloadAction, PreloadError, PreloadEvent, PreloadPhase};

/// One entry of a scripted directory: its path, whether it is a regular
/// file, what reading gives, and how evaluation ends.
struct Listed {
    path: &'static str,
    is_file: bool,
    text: Result<&'static str, &'static str>,
    outcome: Result<u64, (i32, &'static str)>,
}

fn file(path: &'static str, text: &'static str) -> Listed {
    Listed { path, is_file: true, text: Ok(text), outcome: Ok(4) }
}

fn failing(path: &'static str, text: &'static str, state: i32, message: &'static str) -> Listed {
    Listed { path, is_file: true, text: Ok(text), outcome: Err((state, message)) }
}

/// Drives a load over a scripted directory. Gives the load's outcome, the
/// sources that were evaluated and the paths that were read.
fn load(
    directory: &str,
    opened: Result<(), &'static str>,
    entries: &[Listed],
) -> (Result<(), PreloadError>, Vec<String>, Vec<String>) {
    let (mut preload, mut action) = preload_files(directory.to_string());
    let mut evaluated = Vec::new();
    let mut read = Vec::new();
    let mut next = 0;
    let mut in_hand = 0;
    loop {
        let event = match action {
            PreloadAction::OpenDirectory(path) => {
                assert_eq!(path, directory);
                PreloadEvent::Opened(opened.map_err(|cause| cause.to_string()))
            }
            PreloadAction::NextEntry => {
                if next == entries.len() {
                    PreloadEvent::Listed(Entry::End)
                } else {
                    in_hand = next;
                    next += 1;
                    PreloadEvent::Listed(Entry::Found {
                        path: entries[in_hand].path.to_string(),
                        is_file: entries[in_hand].is_file,
                    })
                }
            }
            PreloadAction::ReadFile(path) => {
                assert_eq!(path, entries[in_hand].path);
                read.push(path);
                PreloadEvent::Read(match entries[in_hand].text {
                    Ok(text) => Ok(text.to_string()),
                    Err(cause) => Err(cause.to_string()),
                })
            }
            PreloadAction::Evaluate(source) => {
                evaluated.push(source);
                PreloadEvent::Evaluated(match entries[in_hand].outcome {
                    Ok(raw) => Ok(Value { raw }),
                    Err((state, message)) => {
                        Err(EvalError::Raised { state, message: Some(message.to_string()) })
                    }
                })
            }
            PreloadAction::Finish(outcome) => {
                assert_eq!(preload.phase, PreloadPhase::Finished);
                return (outcome, evaluated, read);
            }
        };
        action = preload.step(event);
    }
}

#[test]
fn test_preload_files_with_nonexistent_directory() {
    let (result, evaluated, read) =
        load("/nonexistent/directory", Err("No such file or directory (os error 2)"), &[file("a.rb", "A = 1")]);
    let error_msg = result.unwrap_err().message();
    assert!(error_msg.contains("Failed to read preload directory"));
    assert_eq!(
        error_msg,
        "Failed to read preload directory '/nonexistent/directory': No such file or directory (os error 2)"
    );
    assert!(evaluated.is_empty());
    assert!(read.is_empty());
}

#[test]
fn test_preload_files_with_invalid_ruby_file() {
    let entries = [failing("/tmp/preload/invalid.rb", "1 + + 1\n", 6, "syntax error, unexpected end-of-input")];
    let (result, evaluated, _) = load("/tmp/preload", Ok(()), &entries);
    let error_msg = result.unwrap_err().message();
    assert!(error_msg.contains("Failed to evaluate preload file"));
    assert_eq!(error_msg, "Failed to evaluate preload file '/tmp/preload/invalid.rb'");
    assert_eq!(evaluated, vec!["1 + + 1\n".to_string()]);
}

#[test]
fn test_preload_files_with_valid_ruby_file() {
    let entries = [Listed { path: "/tmp/preload/valid.rb", is_file: true, text: Ok("$test_var = 42\n"), outcome: Ok(85) }];
    let (result, evaluated, read) = load("/tmp/preload", Ok(()), &entries);
    assert!(result.is_ok());
    assert_eq!(evaluated, vec!["$test_var = 42\n".to_string()]);
    assert_eq!(read, vec!["/tmp/preload/valid.rb".to_string()]);
}

#[test]
fn first_failure_stops_the_load() {
    let entries = [
        file("dir/a.ok", "A = 1"),
        failing("dir/b.bad", "raise 'b is bad'", 6, "b is bad"),
        file("dir/c.ok", "C = 3"),
    ];
    let (result, evaluated, read) = load("dir", Ok(()), &entries);
    assert_eq!(
        result,
        Err(PreloadError::Evaluation {
            path: "dir/b.bad".to_string(),
            error: EvalError::Raised { state: 6, message: Some("b is bad".to_string()) },
        })
    );
    assert_eq!(evaluated, vec!["A = 1".to_string(), "raise 'b is bad'".to_string()]);
    assert_eq!(read, vec!["dir/a.ok".to_string(), "dir/b.bad".to_string()]);
}

#[test]
fn failed_evaluation_reports_file_and_diagnostic() {
    let entries = [failing("dir/invalid.rb", "raise 'intentional preload error'", 6, "intentional preload error")];
    let (result, _, _) = load("dir", Ok(()), &entries);
    let error = result.unwrap_err();
    assert_eq!(error.message(), "Failed to evaluate preload file 'dir/invalid.rb'");
    assert_eq!(
        error.report(),
        "Failed to evaluate preload file 'dir/invalid.rb': Ruby evaluation failed. State: 6, message: intentional preload error"
    );
    assert!(error.report().contains("intentional preload error"));
}

#[test]
fn unreadable_file_is_not_evaluated() {
    let entries = [
        file("dir/a.rb", "A = 1"),
        Listed { path: "dir/b.rb", is_file: true, text: Err("stream did not contain valid UTF-8"), outcome: Ok(4) },
        file("dir/c.rb", "C = 3"),
    ];
    let (result, evaluated, read) = load("dir", Ok(()), &entries);
    let error = result.unwrap_err();
    assert_eq!(
        error,
        PreloadError::File { path: "dir/b.rb".to_string(), cause: "stream did not contain valid UTF-8".to_string() }
    );
    assert_eq!(error.message(), "Failed to read file 'dir/b.rb': stream did not contain valid UTF-8");
    assert_eq!(error.report(), error.message());
    assert_eq!(evaluated, vec!["A = 1".to_string()]);
    assert_eq!(read, vec!["dir/a.rb".to_string(), "dir/b.rb".to_string()]);
}

#[test]
fn entries_that_are_no_files_are_passed_over() {
    let entries = [
        Listed { path: "dir/sub", is_file: false, text: Err("Is a directory"), outcome: Err((1, "never")) },
        file("dir/a.rb", "A = 1"),
        Listed { path: "dir/dangling", is_file: false, text: Err("No such file"), outcome: Err((1, "never")) },
    ];
    let (result, evaluated, read) = load("dir", Ok(()), &entries);
    assert_eq!(result, Ok(()));
    assert_eq!(evaluated, vec!["A = 1".to_string()]);
    assert_eq!(read, vec!["dir/a.rb".to_string()]);
}

#[test]
fn empty_directory_loads_nothing() {
    let (result, evaluated, read) = load("dir", Ok(()), &[]);
    assert_eq!(result, Ok(()));
    assert!(evaluated.is_empty());
    assert!(read.is_empty());
}

#[test]
fn two_files_load_in_either_order() {
    let forward = [file("dir/a.rb", "A = 1"), file("dir/b.rb", "B = 2")];
    let backward = [file("dir/b.rb", "B = 2"), file("dir/a.rb", "A = 1")];
    let (first, mut evaluated_first, _) = load("dir", Ok(()), &forward);
    let (second, mut evaluated_second, _) = load("dir", Ok(()), &backward);
    assert_eq!(first, Ok(()));
    assert_eq!(second, Ok(()));
    assert_eq!(evaluated_first, vec!["A = 1".to_string(), "B = 2".to_string()]);
    assert_eq!(evaluated_second, vec!["B = 2".to_string(), "A = 1".to_string()]);
    evaluated_first.sort();
    evaluated_second.sort();
    assert_eq!(evaluated_first, evaluated_second);
}

#[test]
fn order_decides_which_failure_is_reported() {
    let forward = [failing("dir/a.rb", "raise 'a'", 6, "a"), failing("dir/b.rb", "raise 'b'", 6, "b")];
    let backward = [failing("dir/b.rb", "raise 'b'", 6, "b"), failing("dir/a.rb", "raise 'a'", 6, "a")];
    let (first, _, _) = load("dir", Ok(()), &forward);
    let (second, _, _) = load("dir", Ok(()), &backward);
    assert_eq!(first.unwrap_err().message(), "Failed to evaluate preload file 'dir/a.rb'");
    assert_eq!(second.unwrap_err().message(), "Failed to evaluate preload file 'dir/b.rb'");
}

#[test]
fn broken_listing_ends_the_load() {
    let (mut preload, _) = preload_files("dir".to_string());
    assert_eq!(preload.step(PreloadEvent::Opened(Ok(()))), PreloadAction::NextEntry);
    let action = preload.step(PreloadEvent::Listed(Entry::Broken("Input/output error (os error 5)".to_string())));
    assert_eq!(
        action,
        PreloadAction::Finish(Err(PreloadError::Entry { cause: "Input/output error (os error 5)".to_string() }))
    );
    match action {
        PreloadAction::Finish(Err(error)) => assert_eq!(error.message(), "Input/output error (os error 5)"),
        _ => unreachable!(),
    }
}

#[test]
fn preload_out_of_turn_ends_the_load() {
    let (mut preload, first) = preload_files("dir".to_string());
    assert_eq!(first, PreloadAction::OpenDirectory("dir".to_string()));
    assert_eq!(
        preload,
        Preload { directory: "dir".to_string(), phase: PreloadPhase::Opening, current: None }
    );
    assert_eq!(
        preload.step(PreloadEvent::Read(Ok("A = 1".to_string()))),
        PreloadAction::Finish(Err(PreloadError::OutOfTurn))
    );
    assert_eq!(preload.phase, PreloadPhase::Finished);
    assert_eq!(
        preload.step(PreloadEvent::Opened(Ok(()))),
        PreloadAction::Finish(Err(PreloadError::OutOfTurn))
    );
    assert_eq!(PreloadError::OutOfTurn.message(), "preload driven out of turn");
}
