use ravenlib::patcher::edit_hjson;

/// Line by line, with the standard library's own string functions.
fn by_lines(pre: &str, pat: &str, value: &str) -> String {
    let mut finals = String::new();
    let mut patfound = false;
    for line in pre.lines() {
        if line.contains(pat) {
            patfound = true;
            if line.ends_with(",") {
                finals = finals + "\n" + "    " + pat + "\"" + value + "\","
            } else {
                finals = finals + "\n" + "    " + pat + "\"" + value + "\""
            }
        } else if line.ends_with("}") && !patfound {
            finals = finals + "," + "\n" + "    " + pat + "\"" + value + "\"" + "\n" + line;
        } else {
            finals = finals + "\n" + line;
        }
    }
    finals.trim().to_string()
}

#[test]
fn patch_creates_minimal_object_for_missing_file() {
    let text = edit_hjson(None, "\"theme\": ", "Dark");
    assert_eq!(text, "{\n    \"theme\": \"Dark\"\n}");
}

#[test]
fn patch_adds_missing_key_before_closing_brace() {
    let text = edit_hjson(Some("{\n    \"a\": \"1\"\n}"), "\"b\": ", "2");
    assert_eq!(text, "{\n    \"a\": \"1\",\n    \"b\": \"2\"\n}");
    assert!(text.contains("\"a\": \"1\""));
    assert!(text.contains("\"b\": \"2\""));
}

#[test]
fn patch_replaces_present_key_without_duplicating() {
    let text = edit_hjson(Some("{\n    \"a\": \"1\",\n    \"b\": \"2\"\n}"), "\"a\": ", "9");
    assert_eq!(text, "{\n    \"a\": \"9\",\n    \"b\": \"2\"\n}");
    assert_eq!(text.matches("\"a\": ").count(), 1);
    assert_eq!(text.lines().count(), 4);
}

#[test]
fn patch_keeps_no_comma_on_a_last_key() {
    let text = edit_hjson(Some("{\n    \"a\": \"1\"\n}"), "\"a\": ", "2");
    assert_eq!(text, "{\n    \"a\": \"2\"\n}");
}

#[test]
fn patch_rewrites_every_line_with_the_pattern() {
    let pre = "{\n    \"a\": \"1\",\n    // \"a\": \"old\"\n    \"z\": \"0\"\n}";
    let text = edit_hjson(Some(pre), "\"a\": ", "n");
    assert_eq!(text, "{\n    \"a\": \"n\",\n    \"a\": \"n\"\n    \"z\": \"0\"\n}");
}

#[test]
fn patch_adds_before_each_closing_brace_until_the_key_is_seen() {
    let pre = "{\n    \"x\": {\n    }\n}";
    let text = edit_hjson(Some(pre), "\"k\": ", "v");
    assert_eq!(text, by_lines(pre, "\"k\": ", "v"));
    assert_eq!(text.matches("\"k\": \"v\"").count(), 2);
}

#[test]
fn patch_of_an_empty_file_is_empty() {
    assert_eq!(edit_hjson(Some(""), "\"k\": ", "v"), "");
}

#[test]
fn patch_trims_the_result() {
    let text = edit_hjson(Some("\n\n{\n}\n\n"), "\"k\": ", "v");
    assert_eq!(text, by_lines("\n\n{\n}\n\n", "\"k\": ", "v"));
    assert!(!text.starts_with('\n'));
    assert!(!text.ends_with('\n'));
}

#[test]
fn patch_agrees_with_line_by_line_rewriting() {
    let files = [
        "{\n    \"a\": \"1\"\n}",
        "{ \"a\": \"1\" }",
        "{\r\n    \"a\": \"1\",\r\n    \"b\": \"2\"\r\n}\r\n",
        "{\n    \"workbench.colorTheme\": \"Old\",\n    \"editor.fontSize\": 12\n}",
        "// settings\n{\n    \"theme\": \"A.sublime-theme\",\n    \"color_scheme\": \"B\"\n}\n",
        "no braces at all",
        "}",
        "  {\n  }  ",
    ];
    let keys = ["\"a\": ", "\"theme\": ", "\"workbench.colorTheme\": ", "\"color_scheme\": ", ""];
    for pre in files {
        for pat in keys {
            assert_eq!(edit_hjson(Some(pre), pat, "New"), by_lines(pre, pat, "New"), "{:?} {:?}", pre, pat);
        }
    }
}

#[test]
fn patch_of_a_present_key_keeps_every_other_line() {
    let pre = "{\n    \"a\": \"1\",\n    \"theme\": \"Old\",\n    \"z\": {\n    },\n    \"theme\": \"Older\"\n}";
    let text = edit_hjson(Some(pre), "\"theme\": ", "New");
    let old: Vec<&str> = pre.lines().collect();
    let new: Vec<&str> = text.lines().collect();
    assert_eq!(new.len(), old.len());
    for (i, line) in old.iter().enumerate() {
        if line.contains("\"theme\": ") {
            let comma = if line.ends_with(',') { "," } else { "" };
            assert_eq!(new[i], format!("    \"theme\": \"New\"{}", comma));
        } else {
            assert_eq!(new[i], *line);
        }
    }
}
