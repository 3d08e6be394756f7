use htop::converter::{Action, Converter, Phase};
use htop::jobs::{batch_jobs, single_job, ListedEntry};
use htop::options::PdfPrintingOptions;

fn ok() -> Result<Vec<u8>, String> {
    Ok(vec![])
}

fn quiet() -> PdfPrintingOptions {
    PdfPrintingOptions::from_flags(false, false, "A4", false, false).unwrap()
}

#[test]
fn single_report_runs_one_job_on_a4_portrait() {
    let files = single_job("report.html", None, &Ok("/work/report.html".to_string())).unwrap();
    let options = quiet();
    let (mut c, first) = Converter::start(files, options);
    assert_eq!(first, Action::Launch(vec![]));
    assert_eq!(c.resume(ok()), Action::OpenTab);
    assert_eq!(
        c.resume(ok()),
        Action::Navigate("file:///work/report.html".to_string())
    );
    assert_eq!(c.resume(ok()), Action::AwaitLoad);
    let render = c.resume(ok());
    match render {
        Action::Render(o) => {
            assert!(!o.landscape);
            assert!(!o.print_background);
            assert_eq!((o.paper_width_mm, o.paper_height_mm), (210, 297));
        }
        other => panic!("expected a render, got {:?}", other),
    }
    assert_eq!(
        c.resume(Ok(vec![37, 80, 68, 70])),
        Action::Write("report.pdf".to_string(), vec![37, 80, 68, 70])
    );
    assert_eq!(c.resume(ok()), Action::Done);
    assert_eq!(c.current_phase(), Phase::Finished);
    assert_eq!(c.resume(ok()), Action::Done);
}

#[test]
fn batch_writes_each_html_file_once_in_order() {
    let entries = vec![
        ListedEntry {
            path: "./in/a.html".to_string(),
            is_file: true,
            canonical: Ok("/w/in/a.html".to_string()),
        },
        ListedEntry {
            path: "./in/b.html".to_string(),
            is_file: true,
            canonical: Ok("/w/in/b.html".to_string()),
        },
        ListedEntry {
            path: "./in/notes.txt".to_string(),
            is_file: true,
            canonical: Ok("/w/in/notes.txt".to_string()),
        },
    ];
    let files = batch_jobs(&entries, Some("./out")).unwrap();
    let (mut c, first) = Converter::start(files, quiet());
    assert_eq!(first, Action::Launch(vec![]));
    let mut launches = 1;
    let mut tabs = 0;
    let mut written = vec![];
    let mut action = c.resume(ok());
    loop {
        let outcome = match &action {
            Action::Launch(_) => {
                launches += 1;
                ok()
            }
            Action::OpenTab => {
                tabs += 1;
                ok()
            }
            Action::Render(_) => Ok(vec![1, 2, 3]),
            Action::Write(path, bytes) => {
                assert_eq!(bytes, &vec![1, 2, 3]);
                written.push(path.clone());
                ok()
            }
            Action::Done => break,
            Action::Abort(e) => panic!("aborted: {}", e.message()),
            _ => ok(),
        };
        action = c.resume(outcome);
    }
    assert_eq!(launches, 1);
    assert_eq!(tabs, 1);
    assert_eq!(written, vec!["./out/a.pdf".to_string(), "./out/b.pdf".to_string()]);
}

#[test]
fn crash_reporter_can_be_disabled() {
    let options = PdfPrintingOptions::from_flags(false, false, "A4", false, true).unwrap();
    let (_, first) = Converter::start(vec![], options);
    assert_eq!(
        first,
        Action::Launch(vec!["--disable-crash-reporter".to_string()])
    );
}

#[test]
fn no_jobs_finish_after_the_tab_opens() {
    let (mut c, _) = Converter::start(vec![], quiet());
    assert_eq!(c.resume(ok()), Action::OpenTab);
    assert_eq!(c.resume(ok()), Action::Done);
}

#[test]
fn launch_failure_aborts() {
    let (mut c, _) = Converter::start(vec![("u".to_string(), "o".to_string())], quiet());
    match c.resume(Err("no chrome".to_string())) {
        Action::Abort(e) => assert_eq!(e.message(), "headless chrome failed with reason: no chrome"),
        other => panic!("expected abort, got {:?}", other),
    }
    assert_eq!(c.resume(ok()), Action::Done);
}

#[test]
fn navigation_failure_stops_the_batch() {
    let files = vec![
        ("u1".to_string(), "o1".to_string()),
        ("u2".to_string(), "o2".to_string()),
    ];
    let (mut c, _) = Converter::start(files, quiet());
    c.resume(ok());
    assert_eq!(c.resume(ok()), Action::Navigate("u1".to_string()));
    match c.resume(Err("net::ERR_FILE_NOT_FOUND".to_string())) {
        Action::Abort(e) => assert_eq!(
            e.message(),
            "headless chrome failed for file u1 with reason: net::ERR_FILE_NOT_FOUND"
        ),
        other => panic!("expected abort, got {:?}", other),
    }
    assert_eq!(c.current_phase(), Phase::Finished);
}

#[test]
fn write_failure_names_the_file() {
    let (mut c, _) = Converter::start(vec![("u".to_string(), "o.pdf".to_string())], quiet());
    for _ in 0..4 {
        c.resume(ok());
    }
    assert_eq!(c.resume(Ok(vec![9])), Action::Write("o.pdf".to_string(), vec![9]));
    match c.resume(Err("read-only".to_string())) {
        Action::Abort(e) => assert_eq!(
            e.message(),
            "writing file o.pdf failed with reason: read-only"
        ),
        other => panic!("expected abort, got {:?}", other),
    }
}

#[test]
fn verbose_reports_each_job() {
    let options = PdfPrintingOptions::from_flags(false, true, "A5", true, false).unwrap();
    let (mut c, _) = Converter::start(vec![("file:///a.html".to_string(), "a.pdf".to_string())], options);
    c.resume(ok());
    assert_eq!(
        c.resume(ok()),
        Action::Announce("[htop] Printing file file:///a.html".to_string())
    );
    assert_eq!(c.resume(ok()), Action::Navigate("file:///a.html".to_string()));
    assert_eq!(c.resume(ok()), Action::AwaitLoad);
    assert!(matches!(c.resume(ok()), Action::Render(_)));
    assert_eq!(c.resume(Ok(vec![])), Action::Write("a.pdf".to_string(), vec![]));
    assert_eq!(
        c.resume(ok()),
        Action::Announce("[htop] Printing completed: a.pdf\n".to_string())
    );
    assert_eq!(c.resume(ok()), Action::Done);
}

#[test]
fn render_failure_names_the_input() {
    let files = vec![
        ("u1".to_string(), "o1".to_string()),
        ("u2".to_string(), "o2".to_string()),
    ];
    let (mut c, _) = Converter::start(files, quiet());
    for _ in 0..4 {
        c.resume(ok());
    }
    assert_eq!(c.resume(ok()), Action::Write("o1".to_string(), vec![]));
    assert_eq!(c.resume(ok()), Action::Navigate("u2".to_string()));
    assert_eq!(c.resume(ok()), Action::AwaitLoad);
    assert!(matches!(c.resume(ok()), Action::Render(_)));
    match c.resume(Err("printing failed".to_string())) {
        Action::Abort(e) => assert_eq!(
            e.message(),
            "headless chrome failed for file u2 with reason: printing failed"
        ),
        other => panic!("expected abort, got {:?}", other),
    }
}

#[test]
fn tab_failure_carries_the_reason() {
    let (mut c, _) = Converter::start(vec![("u".to_string(), "o".to_string())], quiet());
    c.resume(ok());
    match c.resume(Err("no target".to_string())) {
        Action::Abort(e) => assert_eq!(e.message(), "headless chrome failed with reason: no target"),
        other => panic!("expected abort, got {:?}", other),
    }
}
