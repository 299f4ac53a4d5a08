use zockervols::dataset::{base_name_str, parse_inspect, parse_list, parse_record, split_str};
use zockervols::names::sanitize_vol;
use zockervols::numbers::{dec_string_u128, dec_string_u64, oct_string_u32, parse_u64};
use zockervols::pool::mountpoint_of_output;
use zockervols::strutil::contains_str;

#[test]
fn serde_dataset() {
    let data = "tank/zocker/tvol\t/mnt/data/zocker/tvol\t1566812157\t98304\t262045696";
    let ds = parse_record(data).unwrap();
    assert_eq!(ds.name, "tank/zocker/tvol");
    assert_eq!(ds.mountpoint.as_deref(), Some("/mnt/data/zocker/tvol"));
    assert_eq!(ds.creation, 1566812157);
    assert_eq!(ds.used, 98304);
    assert_eq!(ds.avail, 262045696);
}

#[test]
fn test_sanitize_vol_noop() {
    let sane = vec!["foo", "foo_bar", "asd123-42", "-----"];
    for s in sane {
        assert_eq!(sanitize_vol(s), s)
    }
}

#[test]
fn test_sanitize_vol_pathological() {
    assert_eq!(sanitize_vol("leboeuf:#42-fix-shit"), "leboeuf__42-fix-shit");
    assert_eq!(sanitize_vol("rename-libstd++11"), "rename-libstd__11");
    assert_eq!(sanitize_vol("ƒoo"), "_oo");
    assert_eq!(sanitize_vol("🗻∈🌏"), "___");
}

#[test]
fn sanitize_is_idempotent_on_samples() {
    for s in ["leboeuf:#42-fix-shit", "rename-libstd++11", "ƒoo", "🗻∈🌏", "plain"] {
        let once = sanitize_vol(s);
        assert_eq!(sanitize_vol(&once), once);
    }
}

#[test]
fn record_with_none_mountpoint() {
    let ds = parse_record("tank/zocker/v\tnone\t10\t20\t30").unwrap();
    assert_eq!(ds.mountpoint, None);
    let ds2 = parse_record("tank/zocker/v\t\t10\t20\t30").unwrap();
    assert_eq!(ds2.mountpoint, None);
}

#[test]
fn record_rejects_bad_shapes() {
    assert!(parse_record("only\tfour\tfields\there").is_none());
    assert!(parse_record("a\tb\tnotanumber\t1\t2").is_none());
    assert!(parse_record("a\tb\t1\t2\t3\textra").is_none());
    assert!(parse_record("").is_none());
}

#[test]
fn list_skips_root_and_reads_records() {
    let out = "tank/zocker\t/mnt/data/zocker\t1\t2\t3\n\
               tank/zocker/foo\t/mnt/data/zocker/foo\t1566812157\t98304\t262045696\n\
               tank/zocker/bar\tnone\t1566812158\t1\t2\n";
    let v = parse_list(out).unwrap();
    assert_eq!(v.len(), 2);
    assert_eq!(v[0].name, "tank/zocker/foo");
    assert_eq!(v[0].mountpoint.as_deref(), Some("/mnt/data/zocker/foo"));
    assert_eq!(v[1].name, "tank/zocker/bar");
    assert_eq!(v[1].mountpoint, None);
}

#[test]
fn empty_pool_lists_nothing() {
    let only_root = "tank/zocker\t/mnt/data/zocker\t1\t2\t3\n";
    let v = parse_list(only_root).unwrap();
    assert!(v.is_empty());
    let nothing = parse_list("").unwrap();
    assert!(nothing.is_empty());
}

#[test]
fn list_entries_inspect_to_the_same_volume() {
    let out = "tank/zocker\t/mnt/data/zocker\t1\t2\t3\n\
               tank/zocker/foo\t/mnt/data/zocker/foo\t1566812157\t98304\t262045696\n\
               tank/zocker/bar\tnone\t1566812158\t1\t2\n";
    let listed = parse_list(out).unwrap();
    for (line, want) in out.lines().skip(1).zip(listed.iter()) {
        let got = parse_inspect(line).unwrap();
        assert_eq!(got.name, want.name);
        assert_eq!(got.mountpoint, want.mountpoint);
        assert_eq!(got.creation, want.creation);
    }
}

#[test]
fn inspect_takes_first_record() {
    let ds = parse_inspect("tank/zocker/foo\t/m\t5\t6\t7\n").unwrap();
    assert_eq!(ds.name, "tank/zocker/foo");
    assert!(parse_inspect("").is_none());
}

#[test]
fn base_name_strips_path() {
    assert_eq!(base_name_str("tank/zocker/tvol"), "tvol");
    assert_eq!(base_name_str("plain"), "plain");
    assert_eq!(base_name_str("a/b"), "b");
}

#[test]
fn split_keeps_empty_fields() {
    assert_eq!(split_str("a,b,,c", ','), vec!["a", "b", "", "c"]);
    assert_eq!(split_str("", ','), vec![""]);
    assert_eq!(split_str("abc", ','), vec!["abc"]);
}

#[test]
fn decimal_round_trips() {
    assert_eq!(dec_string_u64(0), "0");
    assert_eq!(dec_string_u64(1234567890), "1234567890");
    assert_eq!(dec_string_u128(340282366920938463463374607431768211455), "340282366920938463463374607431768211455");
    assert_eq!(parse_u64("1234567890"), Some(1234567890));
    assert_eq!(parse_u64("18446744073709551615"), Some(u64::MAX));
    assert_eq!(parse_u64("18446744073709551616"), None);
    assert_eq!(parse_u64(""), None);
    assert_eq!(parse_u64("12a"), None);
}

#[test]
fn octal_renders() {
    assert_eq!(oct_string_u32(0), "0");
    assert_eq!(oct_string_u32(8), "10");
    assert_eq!(oct_string_u32(0o755), "755");
    assert_eq!(oct_string_u32(0o1777), "1777");
}

#[test]
fn substring_search() {
    assert!(contains_str("stderr says: dataset does not exist!", "dataset does not exist"));
    assert!(!contains_str("dataset exists", "dataset does not exist"));
    assert!(contains_str("abc", ""));
    assert!(!contains_str("ab", "abc"));
}

#[test]
fn mountpoint_output_reads_first_line() {
    assert_eq!(mountpoint_of_output("/mnt/data/zocker\n").as_deref(), Some("/mnt/data/zocker"));
    assert_eq!(mountpoint_of_output("none\n"), None);
    assert_eq!(mountpoint_of_output(""), None);
    assert_eq!(mountpoint_of_output("/a\n/b\n").as_deref(), Some("/a"));
}
