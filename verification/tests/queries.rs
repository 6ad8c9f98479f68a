use git_testament::commit::{committer, parse_offset};
use git_testament::{
    branch_name, commit_id, describe, find_git_dir, parse_describe, parse_record, parse_status,
    revparse_single, run_git, status, GitError, StatusFlag,
};

fn v(s: &str) -> Vec<char> {
    s.chars().collect()
}

fn out(s: &str) -> Result<Vec<u8>, GitError> {
    Ok(s.as_bytes().to_vec())
}

fn tool_failure() -> Result<Vec<u8>, GitError> {
    Err(GitError::ExternalTool("fatal: something\n".to_owned()))
}

fn launch_failure() -> Result<Vec<u8>, GitError> {
    Err(GitError::Io("No such file or directory".to_owned()))
}

fn not_text() -> Result<Vec<u8>, GitError> {
    Ok(vec![b'a', 0xff, b'\n'])
}

// --- the process runner -------------------------------------------------

#[test]
fn run_git_gives_stdout_on_success() {
    let r = run_git(true, b"out".to_vec(), b"warning".to_vec());
    assert!(matches!(r, Ok(bytes) if bytes == b"out"));
    let r = run_git(true, vec![0xff], vec![0xff]);
    assert!(matches!(r, Ok(bytes) if bytes == [0xff]));
}

#[test]
fn run_git_gives_stderr_on_failure() {
    let r = run_git(false, b"out".to_vec(), b"fatal: bad\n".to_vec());
    assert!(matches!(r, Err(GitError::ExternalTool(text)) if text == "fatal: bad\n"));
}

#[test]
fn run_git_insists_on_text() {
    let r = run_git(false, b"out".to_vec(), vec![0xc3, 0x28]);
    assert!(matches!(r, Err(GitError::Utf8)));
}

#[test]
fn fatal_errors_are_io_and_utf8() {
    assert!(GitError::Io(String::new()).is_fatal());
    assert!(GitError::Utf8.is_fatal());
    assert!(!GitError::ExternalTool(String::new()).is_fatal());
    assert!(!GitError::NotARepository.is_fatal());
    assert!(!GitError::NoCommit.is_fatal());
    assert!(!GitError::MalformedCommitRecord.is_fatal());
    assert!(!GitError::MalformedDescribeOutput.is_fatal());
}

// --- the top directory ---------------------------------------------------

#[test]
fn git_dir_is_the_trimmed_output() {
    assert_eq!(
        find_git_dir(out("/home/user/project\n")).unwrap(),
        "/home/user/project"
    );
    assert_eq!(
        find_git_dir(out("  /with spaces/dir \r\n")).unwrap(),
        "  /with spaces/dir"
    );
    assert_eq!(find_git_dir(out("")).unwrap(), "");
}

#[test]
fn git_dir_fails_without_a_repository() {
    assert!(matches!(
        find_git_dir(tool_failure()),
        Err(GitError::NotARepository)
    ));
    assert!(matches!(
        find_git_dir(Err(GitError::NoCommit)),
        Err(GitError::NotARepository)
    ));
}

#[test]
fn git_dir_keeps_fatal_errors() {
    assert!(
        matches!(find_git_dir(launch_failure()), Err(GitError::Io(why)) if why == "No such file or directory")
    );
    assert!(matches!(find_git_dir(not_text()), Err(GitError::Utf8)));
    assert!(matches!(
        find_git_dir(Err(GitError::Utf8)),
        Err(GitError::Utf8)
    ));
}

// --- the branch ----------------------------------------------------------

#[test]
fn branch_loses_its_namespace() {
    assert_eq!(
        branch_name(out("refs/heads/main\n")).unwrap().as_deref(),
        Some("main")
    );
    assert_eq!(
        branch_name(out("  refs/heads/feature/x-1 \n"))
            .unwrap()
            .as_deref(),
        Some("feature/x-1")
    );
    assert_eq!(
        branch_name(out("refs/heads/refs/heads/x\n"))
            .unwrap()
            .as_deref(),
        Some("refs/heads/x")
    );
}

#[test]
fn branch_of_another_namespace_is_kept() {
    assert_eq!(
        branch_name(out("tags/v1.0~2\n")).unwrap().as_deref(),
        Some("tags/v1.0~2")
    );
    assert_eq!(
        branch_name(out("refs/remotes/origin/main\n"))
            .unwrap()
            .as_deref(),
        Some("refs/remotes/origin/main")
    );
    assert_eq!(
        branch_name(out("refs/heads\n")).unwrap().as_deref(),
        Some("refs/heads")
    );
    assert_eq!(
        branch_name(out("master\n")).unwrap().as_deref(),
        Some("master")
    );
}

#[test]
fn empty_branch_is_no_branch() {
    assert_eq!(branch_name(out("")).unwrap(), None);
    assert_eq!(branch_name(out("\n")).unwrap(), None);
    assert_eq!(branch_name(out(" \t\n")).unwrap(), None);
    assert_eq!(branch_name(out("refs/heads/\n")).unwrap(), None);
}

#[test]
fn branch_is_absent_where_git_fails() {
    assert_eq!(branch_name(tool_failure()).unwrap(), None);
}

#[test]
fn branch_keeps_fatal_errors() {
    assert!(matches!(
        branch_name(launch_failure()),
        Err(GitError::Io(_))
    ));
    assert!(matches!(branch_name(not_text()), Err(GitError::Utf8)));
}

// --- the commit ----------------------------------------------------------

#[test]
fn commit_id_is_the_trimmed_output() {
    assert_eq!(
        commit_id(out("763aa159d7e6f5a4b3c2d1e0f9a8b7c6d5e4f3a2\n")).unwrap(),
        "763aa159d7e6f5a4b3c2d1e0f9a8b7c6d5e4f3a2"
    );
}

#[test]
fn commit_id_fails_without_a_commit() {
    assert!(matches!(commit_id(tool_failure()), Err(GitError::NoCommit)));
    assert!(matches!(commit_id(launch_failure()), Err(GitError::Io(_))));
    assert!(matches!(commit_id(not_text()), Err(GitError::Utf8)));
}

const RECORD: &str = "tree 4b825dc642cb6eb9a060e54bf8d69288fbee4904\n\
parent 0123456789abcdef0123456789abcdef01234567\n\
author A U Thor <author@example.com> 1554200000 -0700\n\
committer C O Mitter <committer@example.com> 1554210000 +0130\n\
gpgsig -----BEGIN PGP SIGNATURE-----\n \n iQEzBAABCAAdFiEE\n -----END PGP SIGNATURE-----\n\
\n\
A message\n\
\n\
committer Nobody <n@example.com> 1 +0000\n";

#[test]
fn record_gives_committer_time_and_offset() {
    assert_eq!(parse_record(RECORD), Some((1_554_210_000, 90)));
    assert_eq!(revparse_single(out(RECORD)).unwrap(), (1_554_210_000, 90));
}

#[test]
fn record_is_read_from_the_committer_not_the_author() {
    let record = "author A <a@example.com> 100 +0100\ncommitter C <c@example.com> 200 -0200\n";
    assert_eq!(parse_record(record), Some((200, -120)));
}

#[test]
fn record_with_carriage_returns() {
    let record = "tree 00\r\ncommitter C <c@example.com> 200 -0200\r\n\r\nmessage\r\n";
    assert_eq!(parse_record(record), Some((200, -120)));
}

#[test]
fn committer_name_may_hold_anything() {
    assert_eq!(
        committer(&v("committer 12 34 +0000 <x y@example.com> 1700000000 +0900")),
        Some((1_700_000_000, 540))
    );
    assert_eq!(
        committer(&v(
            "committer 山田\u{3000}太郎 <taro@example.com>\t1700000000\t-0330  "
        )),
        Some((1_700_000_000, -210))
    );
}

#[test]
fn record_without_committer_is_malformed() {
    let record = "tree 00\nauthor A <a@example.com> 100 +0100\n\nmessage\n";
    assert_eq!(parse_record(record), None);
    assert!(matches!(
        revparse_single(out(record)),
        Err(GitError::MalformedCommitRecord)
    ));
    assert!(matches!(
        revparse_single(out("")),
        Err(GitError::MalformedCommitRecord)
    ));
}

#[test]
fn committer_after_the_header_does_not_count() {
    let record = "tree 00\n\ncommitter C <c@example.com> 200 -0200\n";
    assert!(matches!(
        revparse_single(out(record)),
        Err(GitError::MalformedCommitRecord)
    ));
}

#[test]
fn committer_with_too_few_words_is_malformed() {
    for line in ["committer ", "committer  \t", "committer 1700000000"] {
        assert_eq!(committer(&v(line)), None, "{:?}", line);
        assert!(matches!(
            revparse_single(out(line)),
            Err(GitError::MalformedCommitRecord)
        ));
    }
}

#[test]
fn committer_with_a_bad_time_is_malformed() {
    for line in [
        "committer C <c@example.com> never +0100",
        "committer C <c@example.com> 17e8 +0100",
        "committer C <c@example.com> 9223372036854775808 +0100",
        "committer C <c@example.com> +0100",
    ] {
        assert_eq!(committer(&v(line)), None, "{:?}", line);
    }
}

#[test]
fn committer_with_a_bad_offset_is_malformed() {
    for line in [
        "committer C <c@example.com> 1700000000 0100",
        "committer C <c@example.com> 1700000000 +100",
        "committer C <c@example.com> 1700000000 +01:00",
        "committer C <c@example.com> 1700000000 +01000",
        "committer C <c@example.com> 1700000000 +0x00",
        "committer C <c@example.com> 1700000000 UTC",
        "committer C <c@example.com> 1700000000",
    ] {
        assert_eq!(committer(&v(line)), None, "{:?}", line);
    }
}

#[test]
fn revparse_fails_without_a_commit() {
    assert!(matches!(
        revparse_single(tool_failure()),
        Err(GitError::NoCommit)
    ));
    assert!(matches!(
        revparse_single(launch_failure()),
        Err(GitError::Io(_))
    ));
    assert!(matches!(revparse_single(not_text()), Err(GitError::Utf8)));
}

// --- offsets -------------------------------------------------------------

#[test]
fn offsets_are_sixty_times_hours_plus_minutes() {
    assert_eq!(parse_offset(&v("+0000")), Some(0));
    assert_eq!(parse_offset(&v("-0000")), Some(0));
    assert_eq!(parse_offset(&v("+0100")), Some(60));
    assert_eq!(parse_offset(&v("+0130")), Some(90));
    assert_eq!(parse_offset(&v("-0800")), Some(-480));
    assert_eq!(parse_offset(&v("+1400")), Some(840));
    assert_eq!(parse_offset(&v("-1200")), Some(-720));
    assert_eq!(parse_offset(&v("+0545")), Some(345));
    assert_eq!(parse_offset(&v("-0330")), Some(-210));
    assert_eq!(parse_offset(&v("+9959")), Some(99 * 60 + 59));
    assert_eq!(parse_offset(&v("-9999")), Some(-(99 * 60 + 99)));
}

#[test]
fn every_offset_of_four_digits_is_read() {
    for hours in 0..100 {
        for minutes in 0..100 {
            let plus = format!("+{:02}{:02}", hours, minutes);
            let minus = format!("-{:02}{:02}", hours, minutes);
            assert_eq!(parse_offset(&v(&plus)), Some(60 * hours + minutes));
            assert_eq!(parse_offset(&v(&minus)), Some(-(60 * hours + minutes)));
        }
    }
}

#[test]
fn offsets_of_another_length_fail() {
    for text in ["", "+", "+1", "+01", "+010", "+01000", "+0100 ", " +0100", "+01:00"] {
        assert_eq!(parse_offset(&v(text)), None, "{:?}", text);
    }
}

#[test]
fn offsets_need_numbers() {
    for text in ["+ab00", "+00cd", "+0 00", "+١٢٣٤", "+12.5"] {
        assert_eq!(parse_offset(&v(text)), None, "{:?}", text);
    }
}

#[test]
fn only_a_hyphen_makes_an_offset_negative() {
    assert_eq!(parse_offset(&v("00130")), Some(90));
    assert_eq!(parse_offset(&v(" 0130")), Some(90));
    assert_eq!(parse_offset(&v("\u{2212}0130")), Some(90));
}

// --- the description -----------------------------------------------------

#[test]
fn describe_is_the_trimmed_output() {
    assert_eq!(
        describe(out("v1.0-3-gabc1234\n")).unwrap().as_deref(),
        Some("v1.0-3-gabc1234")
    );
}

#[test]
fn describe_is_absent_where_git_fails() {
    assert_eq!(describe(tool_failure()).unwrap(), None);
}

#[test]
fn describe_keeps_fatal_errors() {
    assert!(matches!(describe(launch_failure()), Err(GitError::Io(_))));
    assert!(matches!(describe(not_text()), Err(GitError::Utf8)));
}

#[test]
fn description_parts() {
    assert_eq!(
        parse_describe("v1.0-3-gabc1234").unwrap(),
        ("v1.0".to_owned(), 3)
    );
    assert_eq!(
        parse_describe("1.0.0-0-g763aa15").unwrap(),
        ("1.0.0".to_owned(), 0)
    );
    assert_eq!(
        parse_describe("v2-1234567-g0").unwrap(),
        ("v2".to_owned(), 1_234_567)
    );
}

#[test]
fn tag_with_hyphens() {
    assert_eq!(
        parse_describe("tag-with-hyphens-3-gabc123").unwrap(),
        ("tag-with-hyphens".to_owned(), 3)
    );
    assert_eq!(
        parse_describe("release-2024-01-02-rc-1-17-g0123abc").unwrap(),
        ("release-2024-01-02-rc-1".to_owned(), 17)
    );
    assert_eq!(
        parse_describe("--1-g0").unwrap(),
        ("-".to_owned(), 1)
    );
    assert_eq!(parse_describe("-1-g0").unwrap(), (String::new(), 1));
}

#[test]
fn description_without_parts_is_malformed() {
    for text in [
        "",
        "v1.0",
        "v1.0-gabc1234",
        "v1.0-x-gabc1234",
        "v1.0--gabc1234",
        "v1.0-3.5-gabc1234",
        "v1.0- 3-gabc1234",
        "v1.0-99999999999999999999999999-gabc1234",
        "763aa15",
    ] {
        assert!(
            matches!(
                parse_describe(text),
                Err(GitError::MalformedDescribeOutput)
            ),
            "{:?}",
            text
        );
    }
}

#[test]
fn description_is_read_from_its_end() {
    // what follows the last hyphen is dropped, whatever it is
    assert_eq!(
        parse_describe("v1.0-3-").unwrap(),
        ("v1.0".to_owned(), 3)
    );
    assert_eq!(
        parse_describe("v1.0-3-dirty").unwrap(),
        ("v1.0".to_owned(), 3)
    );
}

// --- the status ----------------------------------------------------------

fn entries(listing: &str) -> Vec<(String, char)> {
    parse_status(listing)
        .into_iter()
        .map(|e| {
            (
                e.path,
                match e.status {
                    StatusFlag::Added => 'A',
                    StatusFlag::Deleted => 'D',
                    StatusFlag::Modified => 'M',
                    StatusFlag::Untracked => '?',
                },
            )
        })
        .collect()
}

fn expected(pairs: &[(&str, char)]) -> Vec<(String, char)> {
    pairs.iter().map(|(p, c)| ((*p).to_owned(), *c)).collect()
}

#[test]
fn status_of_a_listing() {
    let listing = " M src/lib.rs\nA  src/new.rs\n D src/old.rs\n?? notes.txt\nM  Cargo.toml\n";
    assert_eq!(
        entries(listing),
        expected(&[
            ("src/lib.rs", 'M'),
            ("src/new.rs", 'A'),
            ("src/old.rs", 'D'),
            ("notes.txt", '?'),
            ("Cargo.toml", 'M'),
        ])
    );
    let through = status(out(listing)).unwrap();
    assert_eq!(through.len(), 5);
    assert_eq!(through[2].path, "src/old.rs");
    assert!(matches!(through[2].status, StatusFlag::Deleted));
}

#[test]
fn status_of_a_clean_tree() {
    assert!(parse_status("").is_empty());
    assert!(status(out("")).unwrap().is_empty());
}

#[test]
fn status_takes_the_first_state_in_rank() {
    assert_eq!(entries("A? x\n"), expected(&[("x", '?')]));
    assert_eq!(entries("?A x\n"), expected(&[("x", '?')]));
    assert_eq!(entries("?D x\n"), expected(&[("x", '?')]));
    assert_eq!(entries("AM x\n"), expected(&[("x", 'A')]));
    assert_eq!(entries("MA x\n"), expected(&[("x", 'A')]));
    assert_eq!(entries("AD x\n"), expected(&[("x", 'A')]));
    assert_eq!(entries("DA x\n"), expected(&[("x", 'A')]));
    assert_eq!(entries("MD x\n"), expected(&[("x", 'M')]));
    assert_eq!(entries("DM x\n"), expected(&[("x", 'M')]));
    assert_eq!(entries("TD x\n"), expected(&[("x", 'M')]));
    assert_eq!(entries("DT x\n"), expected(&[("x", 'M')]));
    assert_eq!(entries("MM x\n"), expected(&[("x", 'M')]));
    assert_eq!(entries("DD x\n"), expected(&[("x", 'D')]));
    assert_eq!(entries("D  x\n"), expected(&[("x", 'D')]));
}

#[test]
fn status_counts_a_changed_type_as_modified() {
    assert_eq!(entries(" T link\n"), expected(&[("link", 'M')]));
    assert_eq!(entries("T  link\n"), expected(&[("link", 'M')]));
}

#[test]
fn status_ignores_other_codes() {
    assert!(entries("R  old -> new\n").is_empty());
    assert!(entries("C  a -> b\n").is_empty());
    assert!(entries("UU conflict\n").is_empty());
    assert!(entries("!! ignored\n").is_empty());
    assert!(entries("   x\n").is_empty());
    assert!(entries("## main...origin/main\n").is_empty());
    assert!(entries("am x\n").is_empty());
    assert_eq!(
        entries("R  old -> new\n M kept\nXY z\n"),
        expected(&[("kept", 'M')])
    );
    assert_eq!(entries("RM old -> new\n"), expected(&[("old -> new", 'M')]));
}

#[test]
fn status_ignores_lines_too_short_for_codes() {
    assert!(entries("\n").is_empty());
    assert!(entries("?\n").is_empty());
    assert!(entries("\n\n?\nM\n").is_empty());
}

#[test]
fn status_path_is_what_follows_the_third_character() {
    assert_eq!(entries("??\n"), expected(&[("", '?')]));
    assert_eq!(entries("?? \n"), expected(&[("", '?')]));
    assert_eq!(entries("??x\n"), expected(&[("", '?')]));
    assert_eq!(entries("??xy\n"), expected(&[("y", '?')]));
    assert_eq!(
        entries("?? a file with spaces \n"),
        expected(&[("a file with spaces ", '?')])
    );
    assert_eq!(
        entries("?? \"quoted\\tname\"\n"),
        expected(&[("\"quoted\\tname\"", '?')])
    );
    assert_eq!(entries(" M żółć/日本.rs\n"), expected(&[("żółć/日本.rs", 'M')]));
}

#[test]
fn status_without_a_last_line_feed() {
    assert_eq!(
        entries(" M a\n?? b"),
        expected(&[("a", 'M'), ("b", '?')])
    );
    assert_eq!(
        entries(" M a\r\n?? b\r\n"),
        expected(&[("a", 'M'), ("b", '?')])
    );
}

#[test]
fn status_is_empty_where_git_fails() {
    assert!(status(tool_failure()).unwrap().is_empty());
}

#[test]
fn status_keeps_fatal_errors() {
    assert!(matches!(status(launch_failure()), Err(GitError::Io(_))));
    assert!(matches!(status(not_text()), Err(GitError::Utf8)));
}
