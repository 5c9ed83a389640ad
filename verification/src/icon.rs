use vstd::prelude::*;
use vstd::string::StrSliceExecFns;
use vstd::string::StringSliceAdditionalSpecFns;

verus! {

/// Why constructing an icon descriptor failed.
#[derive(Clone, Copy, Debug, PartialEq, Eq, Structural)]
pub enum IconError {
    /// The supplied path string or pixel buffer was empty.
    EmptyInput,
    /// The supplied path string contained an embedded zero byte, so it
    /// cannot be turned into a null-terminated byte sequence.
    InvalidInput,
}

/// True when the byte sequence contains a zero byte.
pub open spec fn has_zero_byte(bytes: Seq<u8>) -> bool {
    exists|i: int| 0 <= i < bytes.len() && bytes[i] == 0
}

/// The 16-bit code units that encode a single character: one unit for a
/// character below `0x10000`, and a surrogate pair for the rest.
pub open spec fn wide_units_of(c: char) -> Seq<u16> {
    let v = c as int;
    if v < 0x10000 {
        seq![v as u16]
    } else {
        seq![
            (0xD800 + (v - 0x10000) / 0x400) as u16,
            (0xDC00 + (v - 0x10000) % 0x400) as u16,
        ]
    }
}

/// The 16-bit code units that encode a character sequence, without a
/// terminator.
pub open spec fn wide_encoding(s: Seq<char>) -> Seq<u16>
    decreases s.len(),
{
    if s.len() == 0 {
        Seq::empty()
    } else {
        wide_encoding(s.drop_last()) + wide_units_of(s.last())
    }
}

/// Represents a window icon.
///
/// Different platforms want different encodings:
///
/// * `Path`: a null-terminated sequence of 16-bit code units together with
///   its element count, terminator included (wide-string platforms).
/// * `MacTest`: a null-terminated byte sequence together with the byte
///   length of the original string, terminator excluded (narrow-string
///   platforms).
/// * `Buffer`: a sequence of packed ARGB pixels together with its pixel
///   count (raw-pixel-buffer platforms).
///
/// Each variant owns its buffer, so a descriptor can never outlive the
/// data it describes.
#[derive(Clone, Debug)]
pub enum Icon {
    Path(Vec<u16>, usize),
    MacTest(Vec<u8>, usize),
    Buffer(Vec<u64>, u32),
}

/// Appends the 16-bit code units of `c` to `out`.
fn push_wide_units(c: char, out: &mut Vec<u16>)
    ensures
        final(out)@ == old(out)@ + wide_units_of(c),
{
    let v = c as u32;
    proof {
        vstd::utf8::char_is_scalar(c);
    }
    if v < 0x10000 {
        out.push(v as u16);
    } else {
        let w = v - 0x10000;
        out.push((0xD800 + w / 0x400) as u16);
        out.push((0xDC00 + w % 0x400) as u16);
    }
    proof {
        assert(out@ =~= old(out)@ + wide_units_of(c));
    }
}

impl Icon {
    /// Builds a path descriptor for a platform whose icon interface wants
    /// a null-terminated wide string. Fails exactly when the string is
    /// empty; otherwise the descriptor holds the string re-encoded as
    /// 16-bit code units with a terminating zero unit appended, and the
    /// element count including that terminator.
    pub fn from_path_wide(s: &str) -> (r: Result<Icon, IconError>)
        ensures
            s@.len() == 0 ==> r == Err::<Icon, IconError>(IconError::EmptyInput),
            s@.len() > 0 ==> (r matches Ok(icon) && icon matches Icon::Path(units, len)
                && units@ == wide_encoding(s@).push(0u16) && len == wide_encoding(s@).len() + 1),
    {
        if s.is_empty() {
            return Err(IconError::EmptyInput);
        }
        let n = s.unicode_len();
        let mut units: Vec<u16> = Vec::new();
        let mut i: usize = 0;
        while i < n
            invariant
                i <= n,
                n == s@.len(),
                units@ == wide_encoding(s@.subrange(0, i as int)),
            decreases n - i,
        {
            let c = s.get_char(i);
            push_wide_units(c, &mut units);
            proof {
                assert(s@.subrange(0, i + 1).drop_last() =~= s@.subrange(0, i as int));
                assert(s@.subrange(0, i + 1).last() == s@[i as int]);
            }
            i = i + 1;
        }
        proof {
            assert(s@.subrange(0, n as int) =~= s@);
        }
        units.push(0);
        proof {
            assert(units@ =~= wide_encoding(s@).push(0u16));
        }
        let len = units.len();
        Ok(Icon::Path(units, len))
    }

    /// Builds a path descriptor for a platform whose icon interface wants
    /// a null-terminated narrow string. Fails with `EmptyInput` when the
    /// string is empty and with `InvalidInput` when its UTF-8 bytes
    /// contain an embedded zero; otherwise the descriptor holds the bytes
    /// with a terminating zero byte appended, and the byte length of the
    /// original string, terminator excluded.
    pub fn from_path_narrow(s: &str) -> (r: Result<Icon, IconError>)
        ensures
            s@.len() == 0 ==> r == Err::<Icon, IconError>(IconError::EmptyInput),
            s@.len() > 0 && has_zero_byte(s.spec_bytes()) ==> r == Err::<Icon, IconError>(
                IconError::InvalidInput,
            ),
            s@.len() > 0 && !has_zero_byte(s.spec_bytes()) ==> (r matches Ok(icon)
                && icon matches Icon::MacTest(bytes, len) && bytes@ == s.spec_bytes().push(0u8)
                && len == s.spec_bytes().len()),
    {
        if s.is_empty() {
            return Err(IconError::EmptyInput);
        }
        let b = s.as_bytes();
        let mut bytes: Vec<u8> = Vec::new();
        let mut i: usize = 0;
        while i < b.len()
            invariant
                i <= b@.len(),
                b@ == s.spec_bytes(),
                bytes@ == b@.subrange(0, i as int),
                forall|j: int| 0 <= j < i ==> b@[j] != 0,
            decreases b@.len() - i,
        {
            let x = *vstd::slice::slice_index_get(b, i);
            if x == 0 {
                return Err(IconError::InvalidInput);
            }
            bytes.push(x);
            proof {
                assert(bytes@ =~= b@.subrange(0, i + 1));
            }
            i = i + 1;
        }
        proof {
            assert(bytes@ =~= s.spec_bytes());
        }
        bytes.push(0);
        let len = s.len();
        Ok(Icon::MacTest(bytes, len))
    }

    /// Builds a pixel-buffer descriptor from a sequence of packed ARGB
    /// pixels. Fails exactly when the sequence is empty; otherwise the
    /// descriptor holds a copy of the pixels and their count.
    pub fn try_from_pixels(value: &[u64]) -> (r: Result<Icon, IconError>)
        requires
            value@.len() <= u32::MAX,
        ensures
            value@.len() == 0 ==> r == Err::<Icon, IconError>(IconError::EmptyInput),
            value@.len() > 0 ==> (r matches Ok(icon) && icon matches Icon::Buffer(
                pixels,
                count,
            ) && pixels@ == value@ && count == value@.len()),
    {
        if value.is_empty() {
            return Err(IconError::EmptyInput);
        }
        let pixels = vstd::slice::slice_to_vec(value);
        let count = pixels.len() as u32;
        Ok(Icon::Buffer(pixels, count))
    }
}

} // verus!
