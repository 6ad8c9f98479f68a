//! The parsers held against the same steps written with the string
//! functions of the standard library.

use git_testament::commit::committer;
use git_testament::{branch_name, parse_describe, parse_record, parse_status, StatusFlag};

fn v(s: &str) -> Vec<char> {
    s.chars().collect()
}

fn committer_by_std(line: &str) -> Option<(i64, i32)> {
    let parts: Vec<&str> = line.split_whitespace().collect();
    if parts.len() < 2 {
        return None;
    }
    let time: i64 = parts[parts.len() - 2].parse().ok()?;
    let offset: Vec<char> = parts[parts.len() - 1].chars().collect();
    if offset.len() != 5 {
        return None;
    }
    let hours: i32 = offset[1..=2].iter().collect::<String>().parse().ok()?;
    let mins: i32 = offset[3..=4].iter().collect::<String>().parse().ok()?;
    let absoffset = mins + (hours * 60);
    Some((time, if offset[0] == '-' { -absoffset } else { absoffset }))
}

fn record_by_std(record: &str) -> Option<(i64, i32)> {
    for line in record.lines() {
        if line.starts_with("committer ") {
            return committer_by_std(line);
        } else if line.is_empty() {
            return None;
        }
    }
    None
}

fn describe_by_std(res: &str) -> Option<(String, usize)> {
    let res = &res[..res.rfind('-')?];
    let tag_name = &res[..res.rfind('-')?];
    let commit_count = res[tag_name.len() + 1..].parse::<usize>().ok()?;
    Some((tag_name.to_owned(), commit_count))
}

fn branch_by_std(symref: &str) -> Option<String> {
    let mut name = symref.trim().to_owned();
    if name.starts_with("refs/heads/") {
        name = name[11..].to_owned();
    }
    if name.is_empty() {
        None
    } else {
        Some(name)
    }
}

/// Pieces that are put together in every order to make lines.
const PIECES: [&str; 16] = [
    "committer",
    " ",
    "\t",
    "\u{a0}",
    "\u{3000}",
    "1700000000",
    "-5",
    "+0100",
    "-0830",
    "+01:00",
    "0100",
    "<a@b.c>",
    "é",
    "+1x00",
    "+-1+2",
    "",
];

fn lines_of_three() -> Vec<String> {
    let mut lines = Vec::new();
    for a in PIECES {
        for b in PIECES {
            for c in PIECES {
                lines.push(format!("{}{}{}", a, b, c));
                lines.push(format!("{} {} {}", a, b, c));
                lines.push(format!("committer X {}{}{}", a, b, c));
            }
        }
    }
    lines
}

#[test]
fn committer_lines_agree() {
    for line in lines_of_three() {
        assert_eq!(committer(&v(&line)), committer_by_std(&line), "{:?}", line);
    }
}

#[test]
fn records_agree() {
    let lines = lines_of_three();
    for (i, line) in lines.iter().enumerate().step_by(7) {
        for ending in ["\n", "\r\n"] {
            let other = &lines[(i * 31) % lines.len()];
            let record = format!("tree 00{e}{}{e}{}{e}{e}body{e}", other, line, e = ending);
            assert_eq!(parse_record(&record), record_by_std(&record), "{:?}", record);
        }
    }
}

#[test]
fn descriptions_agree() {
    let pieces = ["", "-", "v1.0", "3", "+3", "-3", "g0a1b2c", "x", "007", " ", "é", "99999999999999999999"];
    for a in pieces {
        for b in pieces {
            for c in pieces {
                for d in pieces {
                    for text in [
                        format!("{}-{}-{}-{}", a, b, c, d),
                        format!("{}{}-{}-{}", a, b, c, d),
                        format!("{}{}{}-{}", a, b, c, d),
                        format!("{}{}{}{}", a, b, c, d),
                    ] {
                        assert_eq!(parse_describe(&text).ok(), describe_by_std(&text), "{:?}", text);
                    }
                }
            }
        }
    }
}

#[test]
fn branches_agree() {
    let pieces = ["", " ", "\n", "refs/heads/", "refs/", "heads/", "main", "\u{a0}", "x y", "é"];
    for a in pieces {
        for b in pieces {
            for c in pieces {
                let text = format!("{}{}{}", a, b, c);
                assert_eq!(
                    branch_name(Ok(text.clone().into_bytes())).unwrap(),
                    branch_by_std(&text),
                    "{:?}",
                    text
                );
            }
        }
    }
}

#[test]
fn listings_agree_on_plain_lines() {
    let codes = [' ', '?', 'A', 'M', 'D', 'R', 'U', '!', 'C', 'x'];
    let mut listing = String::new();
    let mut expected = Vec::new();
    for index in codes {
        for worktree in codes {
            let path = format!("dir/{}{}.rs", index as u32, worktree as u32);
            listing.push_str(&format!("{}{} {}\n", index, worktree, path));
            let flag = match (index, worktree) {
                ('?', _) | (_, '?') => Some('?'),
                ('A', _) | (_, 'A') => Some('A'),
                ('M', _) | (_, 'M') => Some('M'),
                ('D', _) | (_, 'D') => Some('D'),
                _ => None,
            };
            if let Some(flag) = flag {
                expected.push((path, flag));
            }
        }
    }
    let found: Vec<(String, char)> = parse_status(&listing)
        .into_iter()
        .map(|e| {
            (
                e.path,
                match e.status {
                    StatusFlag::Untracked => '?',
                    StatusFlag::Added => 'A',
                    StatusFlag::Modified => 'M',
                    StatusFlag::Deleted => 'D',
                },
            )
        })
        .collect();
    assert_eq!(found, expected);
}
