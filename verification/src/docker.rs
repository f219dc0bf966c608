//! Reading Docker's disk-usage report: which figures it gives, and how a
//! human-readable size splits into a number and a unit.

use vstd::prelude::*;
use crate::path::chars_equal;
use crate::text::{
    char_views, chars_of, first_word, first_word_of, lines, lines_of, split_chars, split_on,
    string_from_chars, sub_chars, trim_chars, trimmed,
};

verus! {

/// `s` ends with `suffix`.
pub open spec fn ends_with(s: Seq<char>, suffix: Seq<char>) -> bool {
    suffix.len() <= s.len() && s.skip(s.len() - suffix.len()) == suffix
}

/// How a size such as `1.2GB`, `500MB`, `10kB` or `3B` splits into the digits
/// of its number (trimmed) and the bytes its unit stands for; `None` for a
/// zero size (`0B`, `0`) and for a size without a known unit.
pub open spec fn docker_size_parts(s: Seq<char>) -> Option<(Seq<char>, u64)> {
    let t = trimmed(s);
    if t == seq!['0', 'B'] || t == seq!['0'] {
        None
    } else if ends_with(t, seq!['G', 'B']) {
        Some((trimmed(t.take(t.len() - 2)), 1_000_000_000u64))
    } else if ends_with(t, seq!['M', 'B']) {
        Some((trimmed(t.take(t.len() - 2)), 1_000_000u64))
    } else if ends_with(t, seq!['k', 'B']) {
        Some((trimmed(t.take(t.len() - 2)), 1_000u64))
    } else if ends_with(t, seq!['B']) {
        Some((trimmed(t.take(t.len() - 1)), 1u64))
    } else {
        None
    }
}

/// Splits a Docker size into the text of its number and the bytes of its
/// unit; `None` means the size counts as zero.
pub fn split_docker_size(s: &str) -> (r: Option<(String, u64)>)
    ensures
        match r {
            Some((number, unit)) => docker_size_parts(s@) == Some((number@, unit)),
            None => docker_size_parts(s@) is None,
        },
{
    let chars = chars_of(s);
    let t = trim_chars(&chars);
    let n = t.len();
    if (n == 2 && t[0] == '0' && t[1] == 'B') || (n == 1 && t[0] == '0') {
        assert(t@ =~= seq!['0', 'B'] || t@ =~= seq!['0']);
        return None;
    }
    assert(t@ != seq!['0', 'B'] && t@ != seq!['0']);
    let unit: u64;
    let cut: usize;
    if n >= 2 && t[n - 2] == 'G' && t[n - 1] == 'B' {
        assert(t@.skip(n - 2) =~= seq!['G', 'B']);
        unit = 1_000_000_000;
        cut = 2;
    } else if n >= 2 && t[n - 2] == 'M' && t[n - 1] == 'B' {
        assert(t@.skip(n - 2) =~= seq!['M', 'B']);
        assert(!ends_with(t@, seq!['G', 'B']));
        unit = 1_000_000;
        cut = 2;
    } else if n >= 2 && t[n - 2] == 'k' && t[n - 1] == 'B' {
        assert(t@.skip(n - 2) =~= seq!['k', 'B']);
        assert(!ends_with(t@, seq!['G', 'B']));
        assert(!ends_with(t@, seq!['M', 'B']));
        unit = 1_000;
        cut = 2;
    } else if n >= 1 && t[n - 1] == 'B' {
        assert(t@.skip(n - 1) =~= seq!['B']);
        assert(!ends_with(t@, seq!['G', 'B']));
        assert(!ends_with(t@, seq!['M', 'B']));
        assert(!ends_with(t@, seq!['k', 'B']));
        unit = 1;
        cut = 1;
    } else {
        assert(!ends_with(t@, seq!['G', 'B']));
        assert(!ends_with(t@, seq!['M', 'B']));
        assert(!ends_with(t@, seq!['k', 'B']));
        if n >= 1 {
            assert(t@.skip(n - 1)[0] == t@[n - 1]);
        }
        assert(!ends_with(t@, seq!['B']));
        return None;
    }
    let number = sub_chars(&t, 0, n - cut);
    assert(number@ =~= t@.take(n - cut));
    let number = trim_chars(&number);
    Some((string_from_chars(&number), unit))
}

/// The key and the size text a line of the report gives, when it has at
/// least three tab-separated fields: the first field, and the first word of
/// the third (`0` when it has none).
pub open spec fn report_line_entry(line: Seq<char>) -> Option<(Seq<char>, Seq<char>)> {
    let fields = split_on(line, '\t');
    if fields.len() < 3 {
        None
    } else {
        Some((
            fields[0],
            match first_word(fields[2]) {
                Some(w) => w,
                None => "0"@,
            },
        ))
    }
}

/// The size text of the last line among `lines` whose key is `key`.
pub open spec fn last_entry_for(lines: Seq<Seq<char>>, key: Seq<char>) -> Option<Seq<char>>
    decreases lines.len(),
{
    if lines.len() == 0 {
        None
    } else {
        match report_line_entry(lines.last()) {
            Some((k, size)) if k == key => Some(size),
            _ => last_entry_for(lines.drop_last(), key),
        }
    }
}

/// The reclaimable sizes a Docker disk-usage report (`Type`, `Size` and
/// `Reclaimable` columns, tab-separated) gives for images and for the build
/// cache, as text.
pub struct DockerReclaimable {
    pub images: Option<String>,
    pub build_cache: Option<String>,
}

pub open spec fn option_view(o: Option<String>) -> Option<Seq<char>> {
    match o {
        Some(s) => Some(s@),
        None => None,
    }
}

fn line_entry(line: &Vec<char>) -> (r: Option<(Vec<char>, Vec<char>)>)
    ensures
        match r {
            Some((k, size)) => report_line_entry(line@) == Some((k@, size@)),
            None => report_line_entry(line@) is None,
        },
{
    let fields = split_chars(line, '\t');
    if fields.len() < 3 {
        return None;
    }
    assert(fields@[0]@ == split_on(line@, '\t')[0]);
    assert(fields@[2]@ == split_on(line@, '\t')[2]);
    let size = match first_word_of(&fields[2]) {
        Some(w) => w,
        None => chars_of("0"),
    };
    let key = sub_chars(&fields[0], 0, fields[0].len());
    assert(key@ =~= fields@[0]@);
    Some((key, size))
}

/// Reads the reclaimable sizes of images and of the build cache from a
/// Docker disk-usage report; where several lines give one, the last counts.
pub fn parse_docker_df(report: &str) -> (r: DockerReclaimable)
    ensures
        option_view(r.images) == last_entry_for(lines_of(report@), "Images"@),
        option_view(r.build_cache) == last_entry_for(lines_of(report@), "Build Cache"@),
{
    let chars = chars_of(report);
    let all = lines(&chars);
    let ghost lv = lines_of(report@);
    let images_key = chars_of("Images");
    let cache_key = chars_of("Build Cache");
    let mut images: Option<Vec<char>> = None;
    let mut build_cache: Option<Vec<char>> = None;
    let mut i: usize = 0;
    assert(lv.take(0) =~= Seq::<Seq<char>>::empty());
    while i < all.len()
        invariant
            char_views(all@) == lv,
            i <= all.len(),
            images_key@ == "Images"@,
            cache_key@ == "Build Cache"@,
            match images {
                Some(v) => last_entry_for(lv.take(i as int), "Images"@) == Some(v@),
                None => last_entry_for(lv.take(i as int), "Images"@) is None,
            },
            match build_cache {
                Some(v) => last_entry_for(lv.take(i as int), "Build Cache"@) == Some(v@),
                None => last_entry_for(lv.take(i as int), "Build Cache"@) is None,
            },
        decreases all.len() - i,
    {
        assert(lv.take(i + 1).drop_last() =~= lv.take(i as int));
        assert(lv.take(i + 1).last() == all@[i as int]@);
        match line_entry(&all[i]) {
            Some((key, size)) => {
                if chars_equal(&key, &images_key) {
                    let copy = sub_chars(&size, 0, size.len());
                    assert(copy@ =~= size@);
                    images = Some(copy);
                }
                if chars_equal(&key, &cache_key) {
                    build_cache = Some(size);
                }
            },
            None => {},
        }
        i = i + 1;
    }
    assert(lv.take(i as int) =~= lv);
    DockerReclaimable {
        images: match images {
            Some(v) => Some(string_from_chars(&v)),
            None => None,
        },
        build_cache: match build_cache {
            Some(v) => Some(string_from_chars(&v)),
            None => None,
        },
    }
}

} // verus!
