use vstd::prelude::*;

verus! {

/// The archive formats that are told apart by their first bytes.
#[derive(Clone, Copy, Debug, PartialEq, Eq, Structural)]
pub enum ArchiveFormat {
    /// A tar stream compressed with gzip.
    TarGz,
    /// A tar stream compressed with Zstandard.
    TarZstd,
    /// A tar stream compressed with bzip2.
    TarBz2,
    /// A zip file.
    Zip,
}

/// Whether `bytes` begins with `magic`.
pub open spec fn has_magic(bytes: Seq<u8>, magic: Seq<u8>) -> bool {
    magic.is_prefix_of(bytes)
}

/// The format that the first bytes of an archive announce.
pub open spec fn announced_format(bytes: Seq<u8>) -> Option<ArchiveFormat> {
    if has_magic(bytes, seq![0x1fu8, 0x8bu8]) {
        Some(ArchiveFormat::TarGz)
    } else if has_magic(bytes, seq![0x28u8, 0xb5u8, 0x2fu8, 0xfdu8]) {
        Some(ArchiveFormat::TarZstd)
    } else if has_magic(bytes, seq![0x42u8, 0x5au8, 0x68u8]) {
        Some(ArchiveFormat::TarBz2)
    } else if has_magic(bytes, seq![0x50u8, 0x4bu8, 0x03u8, 0x04u8]) {
        Some(ArchiveFormat::Zip)
    } else {
        None
    }
}

/// Tells the format of a buffered archive from its first bytes.
pub fn detect_format(bytes: &[u8]) -> (r: Option<ArchiveFormat>)
    ensures
        r == announced_format(bytes@),
{
    let n = bytes.len();
    proof {
        let b = bytes@;
        if n >= 2 {
            assert(has_magic(b, seq![0x1fu8, 0x8bu8]) <==> b[0] == 0x1f && b[1] == 0x8b) by {
                if b[0] == 0x1f && b[1] == 0x8b {
                    assert(b.subrange(0, 2) =~= seq![0x1fu8, 0x8bu8]);
                } else if has_magic(b, seq![0x1fu8, 0x8bu8]) {
                    assert(b.subrange(0, 2)[0] == 0x1f && b.subrange(0, 2)[1] == 0x8b);
                }
            }
        }
        if n >= 3 {
            assert(has_magic(b, seq![0x42u8, 0x5au8, 0x68u8]) <==> b[0] == 0x42 && b[1] == 0x5a
                && b[2] == 0x68) by {
                if b[0] == 0x42 && b[1] == 0x5a && b[2] == 0x68 {
                    assert(b.subrange(0, 3) =~= seq![0x42u8, 0x5au8, 0x68u8]);
                } else if has_magic(b, seq![0x42u8, 0x5au8, 0x68u8]) {
                    let p = b.subrange(0, 3);
                    assert(p[0] == 0x42 && p[1] == 0x5a && p[2] == 0x68);
                }
            }
        }
        if n >= 4 {
            assert(has_magic(b, seq![0x28u8, 0xb5u8, 0x2fu8, 0xfdu8]) <==> b[0] == 0x28 && b[1]
                == 0xb5 && b[2] == 0x2f && b[3] == 0xfd) by {
                if b[0] == 0x28 && b[1] == 0xb5 && b[2] == 0x2f && b[3] == 0xfd {
                    assert(b.subrange(0, 4) =~= seq![0x28u8, 0xb5u8, 0x2fu8, 0xfdu8]);
                } else if has_magic(b, seq![0x28u8, 0xb5u8, 0x2fu8, 0xfdu8]) {
                    let p = b.subrange(0, 4);
                    assert(p[0] == 0x28 && p[1] == 0xb5 && p[2] == 0x2f && p[3] == 0xfd);
                }
            }
            assert(has_magic(b, seq![0x50u8, 0x4bu8, 0x03u8, 0x04u8]) <==> b[0] == 0x50 && b[1]
                == 0x4b && b[2] == 0x03 && b[3] == 0x04) by {
                if b[0] == 0x50 && b[1] == 0x4b && b[2] == 0x03 && b[3] == 0x04 {
                    assert(b.subrange(0, 4) =~= seq![0x50u8, 0x4bu8, 0x03u8, 0x04u8]);
                } else if has_magic(b, seq![0x50u8, 0x4bu8, 0x03u8, 0x04u8]) {
                    let p = b.subrange(0, 4);
                    assert(p[0] == 0x50 && p[1] == 0x4b && p[2] == 0x03 && p[3] == 0x04);
                }
            }
        }
    }
    if n >= 2 && bytes[0] == 0x1f && bytes[1] == 0x8b {
        Some(ArchiveFormat::TarGz)
    } else if n >= 4 && bytes[0] == 0x28 && bytes[1] == 0xb5 && bytes[2] == 0x2f && bytes[3]
        == 0xfd {
        Some(ArchiveFormat::TarZstd)
    } else if n >= 3 && bytes[0] == 0x42 && bytes[1] == 0x5a && bytes[2] == 0x68 {
        Some(ArchiveFormat::TarBz2)
    } else if n >= 4 && bytes[0] == 0x50 && bytes[1] == 0x4b && bytes[2] == 0x03 && bytes[3]
        == 0x04 {
        Some(ArchiveFormat::Zip)
    } else {
        None
    }
}

/// Whether a path segment may stand in the path of an unpacked file: it
/// is neither empty nor one of the two names that walk the directory tree.
pub open spec fn is_plain_segment(segment: Seq<char>) -> bool {
    segment.len() > 0 && segment != seq!['.'] && segment != seq!['.', '.']
}

/// Where an archive entry goes below the target directory when the top
/// `strip` segments of its path are discarded: the segments that are left.
/// Nothing for an entry that has no segment left, and nothing for one that
/// would not stay below the target.
pub open spec fn destination(segments: Seq<Seq<char>>, strip: nat) -> Option<Seq<Seq<char>>> {
    let rest = segments.skip(strip as int);
    if strip < segments.len() && (forall|i: int|
        0 <= i < rest.len() ==> is_plain_segment(#[trigger] rest[i])) {
        Some(rest)
    } else {
        None
    }
}

fn plain_segment(segment: &str) -> (b: bool)
    ensures
        b == is_plain_segment(segment@),
{
    let chars = crate::text::chars_of(segment);
    if chars.len() == 0 {
        false
    } else if chars.len() == 1 && chars[0] == '.' {
        assert(chars@ =~= seq!['.']);
        false
    } else if chars.len() == 2 && chars[0] == '.' && chars[1] == '.' {
        assert(chars@ =~= seq!['.', '.']);
        false
    } else {
        assert(chars@ != seq!['.']) by {
            if chars@ == seq!['.'] {
                assert(seq!['.'].len() == 1 && seq!['.'][0] == '.');
            }
        }
        assert(chars@ != seq!['.', '.']) by {
            if chars@ == seq!['.', '.'] {
                assert(seq!['.', '.'].len() == 2 && seq!['.', '.'][0] == '.' && seq![
                    '.',
                    '.',
                ][1] == '.');
            }
        }
        true
    }
}

/// Where an archive entry with the path `segments` goes below the target
/// directory when the top `strip` segments are discarded.
pub fn strip_components(segments: &Vec<String>, strip: usize) -> (r: Option<Vec<String>>)
    ensures
        r.deep_view() == destination(segments.deep_view(), strip as nat),
{
    if strip >= segments.len() {
        return None;
    }
    let ghost all = segments.deep_view();
    let ghost rest = all.skip(strip as int);
    let mut out: Vec<String> = Vec::new();
    let mut i = strip;
    while i < segments.len()
        invariant
            strip <= i <= segments.len(),
            all == segments.deep_view(),
            rest == all.skip(strip as int),
            out.deep_view() =~= rest.take(i - strip),
            forall|j: int| 0 <= j < i - strip ==> is_plain_segment(#[trigger] rest[j]),
        decreases segments.len() - i,
    {
        assert(rest[i - strip] == segments[i as int]@);
        if !plain_segment(segments[i].as_str()) {
            return None;
        }
        crate::text::push_string(&mut out, segments[i].clone());
        i += 1;
    }
    assert(rest.take(rest.len() as int) =~= rest);
    Some(out)
}

} // verus!
