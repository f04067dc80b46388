use cloc::calculate::calculate;
use cloc::config::{Config, Info};
use cloc::detail::{aggregate_details, Detail, LanguageDetail, Report, SumDetail};
use cloc::error::Error;
use cloc::executor::{default_capacity, worker_count};
use cloc::explorer::{ignore_paths, is_under_path, EntryKind, Explorer};
use cloc::options::{OrderBy, Output, SortBy};
use cloc::pipeline::statistical_detail;
use cloc::pprint::{markdown_text, pad_left, pad_right, terminal_lines};
use cloc::reporter::Reporter;
use cloc::spinner::Spinner;
use cloc::util::{bytes_to_size, compare, decimal_string};
use std::cmp::Ordering;

fn rust_info(config: &Config) -> &Info {
    config.get_by_extension(Some("rs")).unwrap()
}

fn block_only() -> Info {
    Info::new("Block", vec!["blk"], vec![], vec![("/*", "*/")])
}

fn sorted(report: &Report) -> Vec<LanguageDetail> {
    let mut v = report.languages.clone();
    v.sort_by(|a, b| a.language.cmp(b.language));
    v
}

fn sample_details() -> Vec<Detail> {
    vec![
        Detail::new("Rust", 100, 1, 2, 3),
        Detail::new("C", 50, 4, 5, 6),
        Detail::new("Rust", 7, 0, 1, 10),
        Detail::new("Go", 1, 2, 0, 0),
        Detail::new("C", 3, 1, 1, 1),
    ]
}

#[test]
fn every_line_counted_once() {
    let config = Config::default();
    let texts = [
        "",
        "\n",
        "a\nb",
        "a\nb\n",
        "// x\n\n/* y\nz */\ncode\n   \n",
        "/*\n\n*/\r\nfn f() {}\r\n",
        "\n\n\n",
    ];
    let lines = [0usize, 1, 2, 2, 6, 4, 3];
    for (t, n) in texts.iter().zip(lines.iter()) {
        let d = calculate(t, t.len() as u64, rust_info(&config));
        assert_eq!(d.blank + d.comment + d.code, *n, "text {:?}", t);
        assert_eq!(t.lines().count(), *n);
    }
}

#[test]
fn aggregation_ignores_order() {
    let details = sample_details();
    let mut reversed = details.clone();
    reversed.reverse();
    let mut rotated = details.clone();
    rotated.rotate_left(2);
    let a = aggregate_details(details);
    let b = aggregate_details(reversed);
    let c = aggregate_details(rotated);
    assert_eq!(sorted(&a), sorted(&b));
    assert_eq!(sorted(&a), sorted(&c));
    assert_eq!(a.sum, b.sum);
    assert_eq!(a.sum, c.sum);
    let rust = sorted(&a).into_iter().find(|l| l.language == "Rust").unwrap();
    assert_eq!(
        rust,
        LanguageDetail { language: "Rust", files: 2, bytes: 107, blank: 1, comment: 3, code: 13 }
    );
    assert_eq!(a.sum, SumDetail { files: 5, bytes: 161, blank: 8, comment: 9, code: 20 });
    assert_eq!(a.languages.len(), 3);
}

#[test]
fn rerun_gives_same_report() {
    let config = Config::default();
    let files = [("rs", "// a\nfn f() {}\n"), ("c", "/* x */\nint y;\n"), ("rs", "\n\nx\n")];
    let run = |order: &[usize]| {
        let mut details = Vec::new();
        for &i in order {
            let (ext, text) = files[i];
            let info = config.get_by_extension(Some(ext)).unwrap();
            details.push(calculate(text, text.len() as u64, info));
        }
        aggregate_details(details)
    };
    let first = run(&[0, 1, 2]);
    let second = run(&[2, 0, 1]);
    assert_eq!(sorted(&first), sorted(&second));
    assert_eq!(first.sum, second.sum);
}

#[test]
fn ignored_directory_hides_its_files() {
    let explorer = Explorer::new(Some(vec!["/src/target".to_string()]));
    assert!(!explorer.is_not_ignore_file("/src/target/a.rs"));
    assert!(!explorer.is_not_ignore_file("/src/target/deep/b.rs"));
    assert!(!explorer.is_not_ignore_file("/src/target"));
    assert!(explorer.is_not_ignore_file("/src/targets/c.rs"));
    assert!(explorer.is_not_ignore_file("/src/main.rs"));
    let entries = vec![
        ("/src/target/a.rs".to_string(), EntryKind::File),
        ("/src/lib.rs".to_string(), EntryKind::File),
        ("/src/target".to_string(), EntryKind::Dir),
        ("/src/link".to_string(), EntryKind::Other),
        ("/src/target/x/y.c".to_string(), EntryKind::File),
    ];
    let (files, dirs) = explorer.walk_directory(&entries);
    assert_eq!(files, vec!["/src/lib.rs".to_string()]);
    assert_eq!(dirs, vec!["/src/target".to_string()]);
    let open = Explorer::new(None);
    assert!(open.is_not_ignore_file("/src/target/a.rs"));
}

#[test]
fn path_prefix_is_by_component() {
    assert!(is_under_path("/a/b/c", "/a/b"));
    assert!(is_under_path("/a//b/./c", "/a/b/"));
    assert!(!is_under_path("/a/bc", "/a/b"));
    assert!(!is_under_path("a/b", "/a"));
    assert!(!is_under_path("/a", "/a/b"));
}

#[test]
fn ignore_file_lines() {
    assert_eq!(ignore_paths("/a/b\r\n/c\n\n/d"), vec!["/a/b", "/c", "", "/d"]);
    assert_eq!(ignore_paths(""), Vec::<String>::new());
}

#[test]
fn size_formatting() {
    assert_eq!(bytes_to_size(1024), "1.00 KB");
    assert_eq!(bytes_to_size(0), "0.00 B");
    assert_eq!(bytes_to_size(1), "1.00 B");
    assert_eq!(bytes_to_size(1023), "1023.00 B");
    assert_eq!(bytes_to_size(1536), "1.50 KB");
    assert_eq!(bytes_to_size(1152), "1.12 KB");
    assert_eq!(bytes_to_size(1048576), "1.00 MB");
    assert_eq!(bytes_to_size(10 * 1024 * 1024 * 1024), "10.00 GB");
    assert_eq!(bytes_to_size(u64::MAX), "16.00 EB");
}

#[test]
fn rust_like_input() {
    let config = Config::default();
    let text = "// comment\nfn main() {\n\n}\n";
    let d = calculate(text, text.len() as u64, rust_info(&config));
    assert_eq!(d.language, "Rust");
    assert_eq!((d.blank, d.comment, d.code), (1, 1, 2));
}

#[test]
fn unmapped_extension_is_dropped() {
    let config = Config::default();
    assert!(config.get_by_extension(Some("xyz")).is_none());
    assert!(config.get_by_extension(None).is_none());
    assert!(config.get_by_extension(Some("RS")).is_none());
    assert_eq!(config.get_by_extension(Some("scss")).unwrap().language, "CSS");
    assert_eq!(config.get_by_extension(Some("py")).unwrap().language, "Python");
}

#[test]
fn block_over_three_lines() {
    let info = block_only();
    let text = "/*\nfree text\n*/";
    let d = calculate(text, 16, &info);
    assert_eq!((d.blank, d.comment, d.code), (0, 3, 0));
    assert_eq!(d.bytes, 16);
}

#[test]
fn block_on_one_line() {
    let info = block_only();
    let d = calculate("/* short */\nlet x = 1;", 0, &info);
    assert_eq!((d.blank, d.comment, d.code), (0, 1, 1));
}

#[test]
fn short_marker_line_stays_open() {
    let info = block_only();
    let d = calculate("/*/\nstill inside\n*/\ncode", 0, &info);
    assert_eq!((d.blank, d.comment, d.code), (0, 3, 1));
}

#[test]
fn start_marker_closes_open_block() {
    let info = block_only();
    let d = calculate("/* a\n/* b\ncode();", 0, &info);
    assert_eq!((d.blank, d.comment, d.code), (0, 2, 1));
}

#[test]
fn blank_inside_block_is_blank() {
    let info = block_only();
    let d = calculate("/*\n\n   \n*/\nx", 0, &info);
    assert_eq!((d.blank, d.comment, d.code), (2, 2, 1));
}

#[test]
fn single_prefix_inside_block_keeps_it_open() {
    let config = Config::default();
    let d = calculate("/*\n// inner */\nstill\n*/\nx", 0, rust_info(&config));
    assert_eq!((d.blank, d.comment, d.code), (0, 4, 1));
}

#[test]
fn first_matching_pair_wins() {
    let config = Config::default();
    let go = config.get_by_extension(Some("go")).unwrap();
    let d = calculate("/** doc\n*/\nx := 1", 0, go);
    assert_eq!((d.blank, d.comment, d.code), (0, 2, 1));
}

#[test]
fn option_values() {
    assert!(matches!(Output::parse("Terminal"), Ok(Output::Terminal)));
    assert!(matches!(Output::parse("MARKDOWN"), Ok(Output::Markdown)));
    assert!(matches!(SortBy::parse("Size"), Ok(SortBy::Size)));
    assert!(matches!(SortBy::parse("code"), Ok(SortBy::Code)));
    assert!(matches!(OrderBy::parse("DESC"), Ok(OrderBy::Desc)));
    match SortBy::parse("Colour") {
        Err(Error::InvalidArg(s)) => assert_eq!(s, "colour"),
        _ => panic!("expected an invalid argument"),
    }
    let e = Output::parse("html").unwrap_err();
    assert_eq!(e.message(), "invalid argument: html");
    let parsed: OrderBy = "Asc".parse().unwrap();
    assert_eq!(parsed, OrderBy::Asc);
}

#[test]
fn io_error_converts() {
    let e = Error::from(std::io::Error::new(std::io::ErrorKind::NotFound, "gone"));
    assert!(matches!(e, Error::Io(_)));
    assert_eq!(e.message(), "gone");
}

#[test]
fn descending_compare() {
    assert_eq!(compare(10, 20, OrderBy::Desc), Ordering::Greater);
    assert_eq!(compare("a", "a", OrderBy::Desc), Ordering::Equal);
}

#[test]
fn workers_per_cpu() {
    assert_eq!(worker_count(2), 10);
    assert_eq!(worker_count(usize::MAX), usize::MAX);
    assert!(default_capacity() >= 5);
    assert_eq!(default_capacity() % 5, 0);
}

#[test]
fn reporter_refuses_overflow() {
    let mut r = Reporter::new();
    assert!(r.add(Detail::new("C", u64::MAX, 0, 0, 0)));
    assert!(!r.add(Detail::new("C", 1, 0, 0, 0)));
    assert!(r.add(Detail::new("Go", 0, 1, 1, 1)));
    let report = r.research();
    assert_eq!(report.sum, SumDetail { files: 2, bytes: u64::MAX, blank: 1, comment: 1, code: 1 });
    assert_eq!(report.languages.len(), 2);
}

#[test]
fn from_details_sums() {
    let details = sample_details();
    let l = LanguageDetail::from_details("All", &details);
    assert_eq!(
        l,
        LanguageDetail { language: "All", files: 5, bytes: 161, blank: 8, comment: 9, code: 20 }
    );
    assert_eq!(SumDetail::zero(), SumDetail { files: 0, bytes: 0, blank: 0, comment: 0, code: 0 });
}

#[test]
fn spinner_turns_and_stops() {
    let mut s = Spinner::new();
    let frames: Vec<Option<char>> = (0..5).map(|_| s.next_frame()).collect();
    assert_eq!(frames, vec![Some('|'), Some('/'), Some('-'), Some('\\'), Some('|')]);
    assert!(!s.stopped());
    s.stop();
    assert!(s.stopped());
    assert_eq!(s.next_frame(), None);
}

#[test]
fn padding_counts_characters() {
    assert_eq!(pad_right("ab", 5), "ab   ");
    assert_eq!(pad_left("ab", 5), "   ab");
    assert_eq!(pad_left("abcdef", 3), "abcdef");
    assert_eq!(pad_right("é", 3), "é  ");
    assert_eq!(decimal_string(0), "0");
    assert_eq!(decimal_string(1234567890), "1234567890");
}

#[test]
fn tables_render_rows() {
    let report = aggregate_details(vec![Detail::new("Rust", 2048, 1, 2, 30)]);
    let lines = terminal_lines(&report);
    assert_eq!(lines.len(), 7);
    let row = format!(
        "│ {:<25}{:>12}{:>12}{:>12}{:>12}{:>12} │",
        "Rust", 1, "2.00 KB", 1, 2, 30
    );
    assert_eq!(lines[3], row);
    let header = format!(
        "│ {:<25}{:>12}{:>12}{:>12}{:>12}{:>12} │",
        "Language", "files", "size", "blank", "comment", "code"
    );
    assert_eq!(lines[1], header);
    assert_eq!(lines[0].chars().count(), row.chars().count());
    let md = markdown_text(&report);
    let md_lines: Vec<&str> = md.lines().collect();
    assert_eq!(md_lines.len(), 4);
    assert_eq!(
        md_lines[3],
        format!("| {:<25} | {:>12} | {:>12} | {:>12} | {:>12} | {:>12} |", "Sum", 1, "2.00 KB", 1, 2, 30)
    );
    assert_eq!(md_lines[1].len(), md_lines[0].len());
}

#[test]
fn worker_step_resolves_then_classifies() {
    let config = Config::default();
    let text = "# note\nx = 1\n";
    let d = statistical_detail(&config, Some("py"), text, 14).unwrap();
    assert_eq!(d, Detail::new("Python", 14, 0, 1, 1));
    assert!(statistical_detail(&config, Some("xyz"), text, 14).is_none());
    assert!(statistical_detail(&config, None, text, 14).is_none());
}

#[test]
fn each_extension_has_one_language() {
    let config = Config::default();
    let mut seen: Vec<&str> = Vec::new();
    for info in &config.languages {
        for ext in &info.file_ext {
            assert!(!seen.contains(ext), "{} listed twice", ext);
            seen.push(ext);
            assert_eq!(config.get_by_extension(Some(ext)).unwrap().language, info.language);
        }
    }
    assert_eq!(seen.len(), 38);
}
