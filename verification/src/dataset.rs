//! Parsing of the pool CLI's tab-separated output: dataset records
//! from `list` and inspect invocations, and the first line of a
//! `get mountpoint` invocation.

use crate::mounts::views_of;
use vstd::prelude::*;

verus! {

broadcast use vstd::string::group_string_axioms;

/// Index of the first occurrence of `c` in `s`, if any.
pub open spec fn first_index_of(s: Seq<char>, c: char) -> Option<int>
    decreases s.len(),
{
    if s.len() == 0 {
        None
    } else if s[0] == c {
        Some(0)
    } else {
        match first_index_of(s.drop_first(), c) {
            Some(i) => Some(i + 1),
            None => None,
        }
    }
}

pub proof fn lemma_first_index_props(s: Seq<char>, c: char)
    ensures
        match first_index_of(s, c) {
            Some(i) => 0 <= i < s.len() && s[i] == c && forall|k: int| 0 <= k < i ==> s[k] != c,
            None => forall|k: int| 0 <= k < s.len() ==> s[k] != c,
        },
    decreases s.len(),
{
    if s.len() > 0 && s[0] != c {
        lemma_first_index_props(s.drop_first(), c);
        assert(forall|k: int| 0 < k < s.len() ==> s[k] == s.drop_first()[k - 1]);
    }
}

/// The first occurrence is whatever index holds `c` with none before.
pub proof fn lemma_first_index_is(s: Seq<char>, c: char, j: int)
    requires
        0 <= j < s.len(),
        s[j] == c,
        forall|k: int| 0 <= k < j ==> s[k] != c,
    ensures
        first_index_of(s, c) == Some(j),
{
    lemma_first_index_props(s, c);
    match first_index_of(s, c) {
        Some(i) => {
            if i < j {
                assert(s[i] != c);
            } else if j < i {
                assert(s[j] != c);
            }
        },
        None => {
            assert(s[j] != c);
        },
    }
}

pub proof fn lemma_first_index_absent(s: Seq<char>, c: char)
    requires
        forall|k: int| 0 <= k < s.len() ==> s[k] != c,
    ensures
        first_index_of(s, c) is None,
{
    lemma_first_index_props(s, c);
    match first_index_of(s, c) {
        Some(i) => {
            assert(s[i] != c);
        },
        None => {},
    }
}

/// `s` cut at every occurrence of `sep`. A string without `sep` is a
/// single field; every separator ends a field, so `n` separators give
/// `n + 1` fields.
pub open spec fn split_on(s: Seq<char>, sep: char) -> Seq<Seq<char>>
    decreases s.len(),
{
    match first_index_of(s, sep) {
        None => seq![s],
        Some(i) => {
            let cut = if 0 <= i && i < s.len() {
                i
            } else {
                0
            };
            seq![s.take(cut)] + split_on(s.skip(cut + 1), sep)
        },
    }
}

/// First occurrence of `c` in `s` at an index not below `from`.
pub fn find_char(s: &str, from: usize, c: char) -> (r: Option<usize>)
    requires
        from <= s@.len(),
        s@.len() <= usize::MAX,
    ensures
        match r {
            Some(i) => from <= i < s@.len() && s@[i as int] == c && forall|k: int|
                from <= k < i ==> s@[k] != c,
            None => forall|k: int| from <= k < s@.len() ==> s@[k] != c,
        },
{
    let n = s.unicode_len();
    let mut i = from;
    while i < n
        invariant
            from <= i <= n,
            n == s@.len(),
            n <= usize::MAX,
            forall|k: int| from <= k < i ==> s@[k] != c,
        decreases n - i,
    {
        if s.get_char(i) == c {
            return Some(i);
        }
        i += 1;
    }
    None
}

/// Split `s` at every occurrence of `sep`.
pub fn split_str(s: &str, sep: char) -> (r: Vec<String>)
    ensures
        views_of(r@) == split_on(s@, sep),
{
    let n = s.unicode_len();
    let mut r: Vec<String> = Vec::new();
    let mut start: usize = 0;
    proof {
        assert(s@.skip(0) =~= s@);
        assert(views_of(r@) + split_on(s@, sep) =~= split_on(s@, sep));
    }
    loop
        invariant_except_break
            start <= n,
            n == s@.len(),
            n <= usize::MAX,
            split_on(s@, sep) == views_of(r@) + split_on(s@.skip(start as int), sep),
        ensures
            views_of(r@) == split_on(s@, sep),
        decreases n - start,
    {
        match find_char(s, start, sep) {
            Some(i) => {
                let field = String::from_str(s.substring_char(start, i));
                proof {
                    let rest = s@.skip(start as int);
                    assert(rest[i - start] == sep);
                    assert(forall|k: int| 0 <= k < i - start ==> rest[k] != sep);
                    lemma_first_index_is(rest, sep, i - start);
                    assert(rest.take(i - start) =~= s@.subrange(start as int, i as int));
                    assert(rest.skip(i - start + 1) =~= s@.skip(i + 1));
                    assert(split_on(rest, sep) == seq![s@.subrange(start as int, i as int)]
                        + split_on(s@.skip(i + 1), sep));
                    assert(views_of(r@.push(field)) =~= views_of(r@) + seq![field@]);
                    assert(views_of(r@) + split_on(rest, sep) =~= (views_of(r@) + seq![field@])
                        + split_on(s@.skip(i + 1), sep));
                }
                r.push(field);
                start = i + 1;
            },
            None => {
                let field = String::from_str(s.substring_char(start, n));
                proof {
                    let rest = s@.skip(start as int);
                    assert(forall|k: int| 0 <= k < rest.len() ==> rest[k] != sep);
                    lemma_first_index_absent(rest, sep);
                    assert(rest =~= s@.subrange(start as int, n as int));
                    assert(split_on(rest, sep) == seq![rest]);
                    assert(views_of(r@.push(field)) =~= views_of(r@) + seq![field@]);
                    assert(views_of(r@.push(field)) =~= views_of(r@) + split_on(rest, sep));
                }
                r.push(field);
                break ;
            },
        }
    }
    r
}

/// One dataset record as reported by the pool's `list` output:
/// `name<TAB>mountpoint<TAB>creation<TAB>used<TAB>avail`.
pub struct Dataset {
    pub name: String,
    pub mountpoint: Option<String>,
    pub creation: u64,
    pub used: u64,
    pub avail: u64,
}

/// The mathematical content of a [`Dataset`].
pub struct DatasetModel {
    pub name: Seq<char>,
    pub mountpoint: Option<Seq<char>>,
    pub creation: u64,
    pub used: u64,
    pub avail: u64,
}

impl View for Dataset {
    type V = DatasetModel;

    open spec fn view(&self) -> DatasetModel {
        DatasetModel {
            name: self.name@,
            mountpoint: match self.mountpoint {
                Some(ref m) => Some(m@),
                None => None,
            },
            creation: self.creation,
            used: self.used,
            avail: self.avail,
        }
    }
}

/// A reported mountpoint: absent when the property is `none` or
/// empty.
pub open spec fn mp_model(s: Seq<char>) -> Option<Seq<char>> {
    if s == "none"@ || s.len() == 0 {
        None
    } else {
        Some(s)
    }
}

/// A field that reads as an unsigned 64-bit decimal.
pub open spec fn numeric_field(s: Seq<char>) -> bool {
    s.len() > 0 && crate::numbers::all_digit_chars(s) && crate::numbers::dec_value(s) <= u64::MAX
}

/// What one record line denotes: five tab-separated fields with
/// numeric creation, used and avail columns, or nothing.
pub open spec fn spec_parse_record(line: Seq<char>) -> Option<DatasetModel> {
    let f = split_on(line, '\t');
    if f.len() == 5 && numeric_field(f[2]) && numeric_field(f[3]) && numeric_field(f[4]) {
        Some(
            DatasetModel {
                name: f[0],
                mountpoint: mp_model(f[1]),
                creation: crate::numbers::dec_value(f[2]) as u64,
                used: crate::numbers::dec_value(f[3]) as u64,
                avail: crate::numbers::dec_value(f[4]) as u64,
            },
        )
    } else {
        None
    }
}

/// Parse one record line.
pub fn parse_record(line: &str) -> (r: Option<Dataset>)
    ensures
        r is Some <==> spec_parse_record(line@) is Some,
        r matches Some(d) ==> spec_parse_record(line@) == Some(d@),
{
    let fields = split_str(line, '\t');
    if fields.len() != 5 {
        return None;
    }
    let creation = match crate::numbers::parse_u64(fields[2].as_str()) {
        Some(v) => v,
        None => {
            return None;
        },
    };
    let used = match crate::numbers::parse_u64(fields[3].as_str()) {
        Some(v) => v,
        None => {
            return None;
        },
    };
    let avail = match crate::numbers::parse_u64(fields[4].as_str()) {
        Some(v) => v,
        None => {
            return None;
        },
    };
    let none_lit = String::from_str("none");
    let mountpoint: Option<String> = if fields[1] == none_lit || fields[1].as_str().is_empty() {
        None
    } else {
        Some(fields[1].clone())
    };
    let d = Dataset { name: fields[0].clone(), mountpoint, creation, used, avail };
    proof {
        assert(views_of(fields@)[0] == fields@[0]@);
        assert(views_of(fields@)[1] == fields@[1]@);
        assert(views_of(fields@)[2] == fields@[2]@);
        assert(views_of(fields@)[3] == fields@[3]@);
        assert(views_of(fields@)[4] == fields@[4]@);
    }
    Some(d)
}

/// The views of a vector of datasets.
pub open spec fn models_of(v: Seq<Dataset>) -> Seq<DatasetModel> {
    v.map_values(|d: Dataset| d@)
}

/// Parse a run of record lines, skipping blank ones; one bad record
/// spoils the whole listing.
pub open spec fn parse_lines(ls: Seq<Seq<char>>) -> Option<Seq<DatasetModel>>
    decreases ls.len(),
{
    if ls.len() == 0 {
        Some(Seq::<DatasetModel>::empty())
    } else if ls[0].len() == 0 {
        parse_lines(ls.drop_first())
    } else {
        match spec_parse_record(ls[0]) {
            None => None,
            Some(d) => match parse_lines(ls.drop_first()) {
                None => None,
                Some(rest) => Some(seq![d] + rest),
            },
        }
    }
}

/// A listing: the first (non-blank) line is the root dataset itself
/// and is dropped; the rest are records.
pub open spec fn spec_list_body(ls: Seq<Seq<char>>) -> Option<Seq<DatasetModel>>
    decreases ls.len(),
{
    if ls.len() == 0 {
        Some(Seq::<DatasetModel>::empty())
    } else if ls[0].len() == 0 {
        spec_list_body(ls.drop_first())
    } else {
        parse_lines(ls.drop_first())
    }
}

/// What a whole `list` output denotes.
pub open spec fn spec_parse_list(out: Seq<char>) -> Option<Seq<DatasetModel>> {
    spec_list_body(split_on(out, '\n'))
}

/// What an inspect output (a single record) denotes: its first
/// non-blank line as a record.
pub open spec fn spec_inspect_body(ls: Seq<Seq<char>>) -> Option<DatasetModel>
    decreases ls.len(),
{
    if ls.len() == 0 {
        None
    } else if ls[0].len() == 0 {
        spec_inspect_body(ls.drop_first())
    } else {
        spec_parse_record(ls[0])
    }
}

/// What a whole inspect output denotes.
pub open spec fn spec_parse_inspect(out: Seq<char>) -> Option<DatasetModel> {
    spec_inspect_body(split_on(out, '\n'))
}

/// Parse an inspect output: the first non-blank line as a record.
pub fn parse_inspect(out: &str) -> (r: Option<Dataset>)
    ensures
        r is Some <==> spec_parse_inspect(out@) is Some,
        r matches Some(d) ==> spec_parse_inspect(out@) == Some(d@),
{
    let lines = split_str(out, '\n');
    let ghost ls = split_on(out@, '\n');
    let n = lines.len();
    let mut i: usize = 0;
    proof {
        assert(ls.skip(0) =~= ls);
    }
    while i < n
        invariant
            i <= n,
            n == lines@.len(),
            views_of(lines@) == ls,
            ls == split_on(out@, '\n'),
            spec_inspect_body(ls) == spec_inspect_body(ls.skip(i as int)),
            forall|k: int| 0 <= k < i ==> ls[k].len() == 0,
        decreases n - i,
    {
        proof {
            assert(ls.skip(i as int).drop_first() =~= ls.skip(i + 1));
            assert(ls.skip(i as int)[0] == ls[i as int]);
            assert(ls[i as int] == lines@[i as int]@);
        }
        if !lines[i].as_str().is_empty() {
            proof {
                assert(spec_inspect_body(ls.skip(i as int)) == spec_parse_record(ls[i as int]));
            }
            return parse_record(lines[i].as_str());
        }
        i += 1;
    }
    proof {
        assert(ls.skip(n as int) =~= Seq::<Seq<char>>::empty());
    }
    None
}

/// Parse a whole `list` output: skip blanks, drop the root record,
/// read the rest. `None` when some record does not parse.
pub fn parse_list(out: &str) -> (r: Option<Vec<Dataset>>)
    ensures
        r is Some <==> spec_parse_list(out@) is Some,
        r matches Some(v) ==> spec_parse_list(out@) == Some(models_of(v@)),
{
    let lines = split_str(out, '\n');
    let ghost ls = split_on(out@, '\n');
    let n = lines.len();
    let mut i: usize = 0;
    proof {
        assert(ls.skip(0) =~= ls);
    }
    // Skip leading blank lines, then the root record itself.
    loop
        invariant_except_break
            i <= n,
            n == lines@.len(),
            views_of(lines@) == ls,
            ls == split_on(out@, '\n'),
            spec_list_body(ls) == spec_list_body(ls.skip(i as int)),
        ensures
            i <= n,
            n == lines@.len(),
            views_of(lines@) == ls,
            ls == split_on(out@, '\n'),
            spec_list_body(ls) == parse_lines(ls.skip(i as int)),
        decreases n - i,
    {
        if i == n {
            proof {
                assert(ls.skip(n as int) =~= Seq::<Seq<char>>::empty());
                assert(parse_lines(ls.skip(n as int)) == Some(Seq::<DatasetModel>::empty()));
                assert(spec_list_body(ls.skip(n as int)) == Some(Seq::<DatasetModel>::empty()));
            }
            break ;
        }
        proof {
            assert(ls.skip(i as int).drop_first() =~= ls.skip(i + 1));
            assert(ls.skip(i as int)[0] == ls[i as int]);
            assert(ls[i as int] == lines@[i as int]@);
        }
        if !lines[i].as_str().is_empty() {
            proof {
                assert(spec_list_body(ls.skip(i as int)) == parse_lines(ls.skip(i + 1)));
            }
            i += 1;
            break ;
        }
        i += 1;
    }
    let mut acc: Vec<Dataset> = Vec::new();
    while i < n
        invariant
            i <= n,
            n == lines@.len(),
            views_of(lines@) == ls,
            ls == split_on(out@, '\n'),
            spec_list_body(ls) == match parse_lines(ls.skip(i as int)) {
                None => None::<Seq<DatasetModel>>,
                Some(rest) => Some(models_of(acc@) + rest),
            },
        decreases n - i,
    {
        proof {
            assert(ls.skip(i as int).drop_first() =~= ls.skip(i + 1));
            assert(ls.skip(i as int)[0] == ls[i as int]);
            assert(ls[i as int] == lines@[i as int]@);
        }
        if !lines[i].as_str().is_empty() {
            match parse_record(lines[i].as_str()) {
                Some(d) => {
                    let ghost acc_before = models_of(acc@);
                    acc.push(d);
                    proof {
                        assert(models_of(acc@) =~= acc_before.push(d@));
                        assert(forall|rest: Seq<DatasetModel>| #[trigger] (acc_before.push(d@)
                            + rest) =~= acc_before + (seq![d@] + rest));
                    }
                },
                None => {
                    proof {
                        assert(parse_lines(ls.skip(i as int)) is None);
                    }
                    return None;
                },
            }
        }
        i += 1;
    }
    proof {
        assert(ls.skip(n as int) =~= Seq::<Seq<char>>::empty());
        assert(models_of(acc@) + Seq::<DatasetModel>::empty() =~= models_of(acc@));
    }
    Some(acc)
}

/// The component after the last `/`; the whole name when there is no
/// `/`.
pub open spec fn base_name(s: Seq<char>) -> Seq<char>
    decreases s.len(),
{
    match first_index_of(s, '/') {
        None => s,
        Some(i) => {
            let cut = if 0 <= i && i < s.len() {
                i
            } else {
                0
            };
            base_name(s.skip(cut + 1))
        },
    }
}

/// Strip everything up to the last `/`.
pub fn base_name_str(s: &str) -> (r: String)
    ensures
        r@ == base_name(s@),
{
    let n = s.unicode_len();
    let mut start: usize = 0;
    proof {
        assert(s@.skip(0) =~= s@);
    }
    loop
        invariant_except_break
            start <= n,
            n == s@.len(),
            n <= usize::MAX,
            base_name(s@) == base_name(s@.skip(start as int)),
        ensures
            base_name(s@) == base_name(s@.skip(start as int)),
            start <= n,
            n == s@.len(),
            forall|k: int| start <= k < s@.len() ==> s@[k] != '/',
        decreases n - start,
    {
        match find_char(s, start, '/') {
            Some(i) => {
                proof {
                    let rest = s@.skip(start as int);
                    assert(rest[i - start] == '/');
                    assert(forall|k: int| 0 <= k < i - start ==> rest[k] != '/');
                    lemma_first_index_is(rest, '/', i - start);
                    assert(rest.skip(i - start + 1) =~= s@.skip(i + 1));
                }
                start = i + 1;
            },
            None => {
                break ;
            },
        }
    }
    proof {
        let rest = s@.skip(start as int);
        assert(forall|k: int| 0 <= k < rest.len() ==> rest[k] != '/');
        lemma_first_index_absent(rest, '/');
        assert(rest =~= s@.subrange(start as int, n as int));
    }
    String::from_str(s.substring_char(start, n))
}

/// No field of a split contains the separator.
pub proof fn lemma_split_no_sep(s: Seq<char>, sep: char, j: int)
    requires
        0 <= j < split_on(s, sep).len(),
    ensures
        !split_on(s, sep)[j].contains(sep),
    decreases s.len(),
{
    lemma_first_index_props(s, sep);
    match first_index_of(s, sep) {
        None => {
            if split_on(s, sep)[j].contains(sep) {
                let k = choose|k: int| 0 <= k < s.len() && s[k] == sep;
                assert(s[k] != sep);
            }
        },
        Some(i) => {
            if j == 0 {
                if s.take(i).contains(sep) {
                    let k = choose|k: int| 0 <= k < i && s.take(i)[k] == sep;
                    assert(s[k] != sep);
                }
            } else {
                lemma_split_no_sep(s.skip(i + 1), sep, j - 1);
            }
        },
    }
}

/// Every entry of a parsed run of record lines comes from one of the
/// lines: that line parses on its own to exactly that entry.
pub proof fn lemma_lines_entry_source(ls: Seq<Seq<char>>, k: int)
    requires
        parse_lines(ls) is Some,
        0 <= k < parse_lines(ls)->0.len(),
    ensures
        exists|j: int|
            0 <= j < ls.len() && #[trigger] spec_parse_record(ls[j]) == Some(parse_lines(ls)->0[k]),
    decreases ls.len(),
{
    let ms = parse_lines(ls)->0;
    if ls[0].len() == 0 {
        lemma_lines_entry_source(ls.drop_first(), k);
        let j = choose|j: int|
            0 <= j < ls.drop_first().len() && #[trigger] spec_parse_record(ls.drop_first()[j])
                == Some(parse_lines(ls.drop_first())->0[k]);
        assert(ls[j + 1] == ls.drop_first()[j]);
        assert(spec_parse_record(ls[j + 1]) == Some(ms[k]));
    } else {
        let d = spec_parse_record(ls[0])->0;
        let rest = parse_lines(ls.drop_first())->0;
        assert(ms == seq![d] + rest);
        if k == 0 {
            assert(ms[0] == d);
            assert(spec_parse_record(ls[0]) == Some(ms[0]));
        } else {
            assert(ms[k] == rest[k - 1]);
            lemma_lines_entry_source(ls.drop_first(), k - 1);
            let j = choose|j: int|
                0 <= j < ls.drop_first().len() && #[trigger] spec_parse_record(ls.drop_first()[j])
                    == Some(parse_lines(ls.drop_first())->0[k - 1]);
            assert(ls[j + 1] == ls.drop_first()[j]);
            assert(spec_parse_record(ls[j + 1]) == Some(ms[k]));
        }
    }
}

/// A single record line read back through the inspect parser gives
/// the same dataset, mountpoint included.
pub proof fn lemma_record_line_inspects(line: Seq<char>)
    requires
        line.len() > 0,
        !line.contains('\n'),
    ensures
        spec_parse_inspect(line) == spec_parse_record(line),
{
    assert(forall|k: int| 0 <= k < line.len() ==> line[k] != '\n');
    lemma_first_index_absent(line, '\n');
    assert(split_on(line, '\n') == seq![line]);
    assert(seq![line][0] == line);
}

/// Every dataset of a parsed listing can be fetched on its own: some
/// record line of the listing, taken as an inspect output, parses to
/// exactly that dataset, with the same mountpoint.
pub proof fn lemma_list_entries_fetchable(out: Seq<char>, k: int)
    requires
        spec_parse_list(out) is Some,
        0 <= k < spec_parse_list(out)->0.len(),
    ensures
        exists|line: Seq<char>| #[trigger] spec_parse_inspect(line) == Some(
            spec_parse_list(out)->0[k],
        ),
{
    let ls = split_on(out, '\n');
    lemma_list_body_entry(ls, k);
    let j = choose|j: int|
        0 <= j < ls.len() && ls[j].len() > 0 && #[trigger] spec_parse_record(ls[j]) == Some(
            spec_list_body(ls)->0[k],
        );
    lemma_split_no_sep(out, '\n', j);
    lemma_record_line_inspects(ls[j]);
    assert(spec_parse_inspect(ls[j]) == Some(spec_parse_list(out)->0[k]));
}

proof fn lemma_list_body_entry(ls: Seq<Seq<char>>, k: int)
    requires
        spec_list_body(ls) is Some,
        0 <= k < spec_list_body(ls)->0.len(),
    ensures
        exists|j: int|
            0 <= j < ls.len() && ls[j].len() > 0 && #[trigger] spec_parse_record(ls[j]) == Some(
                spec_list_body(ls)->0[k],
            ),
    decreases ls.len(),
{
    if ls[0].len() == 0 {
        lemma_list_body_entry(ls.drop_first(), k);
        let j = choose|j: int|
            0 <= j < ls.drop_first().len() && ls.drop_first()[j].len() > 0
                && #[trigger] spec_parse_record(ls.drop_first()[j]) == Some(
                spec_list_body(ls.drop_first())->0[k],
            );
        assert(ls[j + 1] == ls.drop_first()[j]);
        assert(ls[j + 1].len() > 0 && spec_parse_record(ls[j + 1]) == Some(
            spec_list_body(ls)->0[k],
        ));
    } else {
        lemma_lines_entry_source(ls.drop_first(), k);
        let j = choose|j: int|
            0 <= j < ls.drop_first().len() && #[trigger] spec_parse_record(ls.drop_first()[j])
                == Some(parse_lines(ls.drop_first())->0[k]);
        assert(ls[j + 1] == ls.drop_first()[j]);
        if ls[j + 1].len() == 0 {
            lemma_blank_line_no_record(ls[j + 1]);
        }
        assert(ls[j + 1].len() > 0 && spec_parse_record(ls[j + 1]) == Some(
            spec_list_body(ls)->0[k],
        ));
    }
}

/// A blank line is not a record.
proof fn lemma_blank_line_no_record(line: Seq<char>)
    requires
        line.len() == 0,
    ensures
        spec_parse_record(line) is None,
{
    lemma_first_index_absent(line, '\t');
    assert(split_on(line, '\t') == seq![line]);
}

} // verus!
