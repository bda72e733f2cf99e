use vstd::prelude::*;

use crate::error::Error;
use crate::error::ErrorView;
use crate::reader::be_u16;
use crate::reader::be_u32;
use crate::reader::be_u64;
use crate::reader::to_signed_32;
use crate::reader::to_signed_64;
use crate::reader::Reader;
use vstd::utf8::decode_utf8;
use vstd::utf8::valid_utf8;

verus! {

/// The closed set of recognized constant-pool tags. The byte discriminants
/// are given by [`ConstantPoolItemTag::spec_byte`]; every other byte value is
/// rejected by [`ConstantPoolItemTag::try_from_u8`].
#[derive(Debug, Clone, Copy, PartialEq, Eq, Structural)]
pub enum ConstantPoolItemTag {
    Utf8,
    Integer,
    Float,
    Long,
    Double,
    Class,
    String,
    FieldRef,
    MethodRef,
    InterfaceMethodRef,
    NameAndType,
    MethodHandle,
    MethodType,
    InvokeDynamic,
}

impl ConstantPoolItemTag {
    /// The wire discriminant of this tag.
    pub open spec fn spec_byte(self) -> u8 {
        match self {
            ConstantPoolItemTag::Utf8 => 1,
            ConstantPoolItemTag::Integer => 3,
            ConstantPoolItemTag::Float => 4,
            ConstantPoolItemTag::Long => 5,
            ConstantPoolItemTag::Double => 6,
            ConstantPoolItemTag::Class => 7,
            ConstantPoolItemTag::String => 8,
            ConstantPoolItemTag::FieldRef => 9,
            ConstantPoolItemTag::MethodRef => 10,
            ConstantPoolItemTag::InterfaceMethodRef => 11,
            ConstantPoolItemTag::NameAndType => 12,
            ConstantPoolItemTag::MethodHandle => 15,
            ConstantPoolItemTag::MethodType => 16,
            ConstantPoolItemTag::InvokeDynamic => 18,
        }
    }

    /// The tag a wire discriminant stands for, if any.
    pub open spec fn spec_of_byte(b: u8) -> Option<ConstantPoolItemTag> {
        if b == 1 {
            Some(ConstantPoolItemTag::Utf8)
        } else if b == 3 {
            Some(ConstantPoolItemTag::Integer)
        } else if b == 4 {
            Some(ConstantPoolItemTag::Float)
        } else if b == 5 {
            Some(ConstantPoolItemTag::Long)
        } else if b == 6 {
            Some(ConstantPoolItemTag::Double)
        } else if b == 7 {
            Some(ConstantPoolItemTag::Class)
        } else if b == 8 {
            Some(ConstantPoolItemTag::String)
        } else if b == 9 {
            Some(ConstantPoolItemTag::FieldRef)
        } else if b == 10 {
            Some(ConstantPoolItemTag::MethodRef)
        } else if b == 11 {
            Some(ConstantPoolItemTag::InterfaceMethodRef)
        } else if b == 12 {
            Some(ConstantPoolItemTag::NameAndType)
        } else if b == 15 {
            Some(ConstantPoolItemTag::MethodHandle)
        } else if b == 16 {
            Some(ConstantPoolItemTag::MethodType)
        } else if b == 18 {
            Some(ConstantPoolItemTag::InvokeDynamic)
        } else {
            None
        }
    }

    /// Converts a wire discriminant into its tag, rejecting every byte value
    /// outside the recognized set with the offending byte.
    pub fn try_from_u8(b: u8) -> (r: Result<ConstantPoolItemTag, Error>)
        ensures
            match r {
                Ok(t) => Self::spec_of_byte(b) == Some(t),
                Err(e) => Self::spec_of_byte(b) is None && e
                    == Error::InvalidConstantPoolItemTag(b),
            },
    {
        match b {
            1 => Ok(ConstantPoolItemTag::Utf8),
            3 => Ok(ConstantPoolItemTag::Integer),
            4 => Ok(ConstantPoolItemTag::Float),
            5 => Ok(ConstantPoolItemTag::Long),
            6 => Ok(ConstantPoolItemTag::Double),
            7 => Ok(ConstantPoolItemTag::Class),
            8 => Ok(ConstantPoolItemTag::String),
            9 => Ok(ConstantPoolItemTag::FieldRef),
            10 => Ok(ConstantPoolItemTag::MethodRef),
            11 => Ok(ConstantPoolItemTag::InterfaceMethodRef),
            12 => Ok(ConstantPoolItemTag::NameAndType),
            15 => Ok(ConstantPoolItemTag::MethodHandle),
            16 => Ok(ConstantPoolItemTag::MethodType),
            18 => Ok(ConstantPoolItemTag::InvokeDynamic),
            _ => Err(Error::InvalidConstantPoolItemTag(b)),
        }
    }

    /// The wire discriminant of this tag, as an executable value.
    pub fn as_u8(self) -> (r: u8)
        ensures
            r == self.spec_byte(),
    {
        match self {
            ConstantPoolItemTag::Utf8 => 1,
            ConstantPoolItemTag::Integer => 3,
            ConstantPoolItemTag::Float => 4,
            ConstantPoolItemTag::Long => 5,
            ConstantPoolItemTag::Double => 6,
            ConstantPoolItemTag::Class => 7,
            ConstantPoolItemTag::String => 8,
            ConstantPoolItemTag::FieldRef => 9,
            ConstantPoolItemTag::MethodRef => 10,
            ConstantPoolItemTag::InterfaceMethodRef => 11,
            ConstantPoolItemTag::NameAndType => 12,
            ConstantPoolItemTag::MethodHandle => 15,
            ConstantPoolItemTag::MethodType => 16,
            ConstantPoolItemTag::InvokeDynamic => 18,
        }
    }
}

/// The byte-to-tag and tag-to-byte mappings are exact inverses: converting a
/// recognized byte to a tag and back yields the same byte, and every tag's
/// discriminant converts back to that tag.
pub proof fn lemma_tag_byte_roundtrip()
    ensures
        forall|b: u8|
            (#[trigger] ConstantPoolItemTag::spec_of_byte(b)) matches Some(t) ==> t.spec_byte()
                == b,
        forall|t: ConstantPoolItemTag|
            ConstantPoolItemTag::spec_of_byte(#[trigger] t.spec_byte()) == Some(t),
{
}

/// One decoded constant-pool entry. Eight-byte constants hold their decoded
/// value; `Float` and `Double` hold the raw IEEE 754 bit patterns, which a
/// caller may reinterpret as floating-point numbers. Tags that are recognized
/// but not materialized decode to `Unsupported` with their payload bytes
/// consumed from the stream.
#[derive(Debug, Clone, PartialEq)]
pub enum ConstantPoolItem {
    Utf8(String),
    Integer(i32),
    /// The raw bits of an IEEE 754 single-precision value.
    Float(u32),
    Long(i64),
    /// The raw bits of an IEEE 754 double-precision value.
    Double(u64),
    Unsupported,
}

/// The mathematical shape of a [`ConstantPoolItem`], with text as a sequence
/// of characters.
pub enum ConstantPoolItemView {
    Utf8(Seq<char>),
    Integer(i32),
    Float(u32),
    Long(i64),
    Double(u64),
    Unsupported,
}

impl View for ConstantPoolItem {
    type V = ConstantPoolItemView;

    open spec fn view(&self) -> ConstantPoolItemView {
        match self {
            ConstantPoolItem::Utf8(s) => ConstantPoolItemView::Utf8(s@),
            ConstantPoolItem::Integer(v) => ConstantPoolItemView::Integer(*v),
            ConstantPoolItem::Float(bits) => ConstantPoolItemView::Float(*bits),
            ConstantPoolItem::Long(v) => ConstantPoolItemView::Long(*v),
            ConstantPoolItem::Double(bits) => ConstantPoolItemView::Double(*bits),
            ConstantPoolItem::Unsupported => ConstantPoolItemView::Unsupported,
        }
    }
}

impl ConstantPoolItemView {
    /// True exactly for the eight-byte constants, which occupy two logical
    /// constant-pool slots.
    pub open spec fn is_8byte(self) -> bool {
        self is Long || self is Double
    }
}

impl ConstantPoolItem {
    /// True exactly for the eight-byte constants (`Long` and `Double`), which
    /// occupy two logical constant-pool slots.
    pub fn is_8byte(&self) -> (r: bool)
        ensures
            r == self@.is_8byte(),
    {
        match self {
            ConstantPoolItem::Long(_) | ConstantPoolItem::Double(_) => true,
            _ => false,
        }
    }
}

/// The views of a sequence of decoded constant-pool entries.
pub open spec fn views_of(items: Seq<ConstantPoolItem>) -> Seq<ConstantPoolItemView> {
    items.map_values(|item: ConstantPoolItem| item@)
}

/// What decoding one constant-pool payload from `bytes` at `pos` yields,
/// once the tag is known: the decoded entry and the position one past its
/// payload, or the error that aborts the parse.
pub open spec fn spec_read_payload(bytes: Seq<u8>, pos: int, tag: ConstantPoolItemTag) -> Result<
    (ConstantPoolItemView, int),
    ErrorView,
> {
    match tag {
        ConstantPoolItemTag::Utf8 => {
            if pos + 2 > bytes.len() {
                Err(ErrorView::IoError)
            } else {
                let strlen = be_u16(bytes.subrange(pos, pos + 2));
                if pos + 2 + strlen > bytes.len() {
                    Err(ErrorView::IoError)
                } else {
                    let payload = bytes.subrange(pos + 2, pos + 2 + strlen);
                    if valid_utf8(payload) {
                        Ok((ConstantPoolItemView::Utf8(decode_utf8(payload)), pos + 2 + strlen))
                    } else {
                        Err(ErrorView::Utf8DecodeError(payload))
                    }
                }
            }
        },
        ConstantPoolItemTag::Integer => {
            if pos + 4 > bytes.len() {
                Err(ErrorView::IoError)
            } else {
                Ok(
                    (
                        ConstantPoolItemView::Integer(
                            to_signed_32(be_u32(bytes.subrange(pos, pos + 4))) as i32,
                        ),
                        pos + 4,
                    ),
                )
            }
        },
        ConstantPoolItemTag::Float => {
            if pos + 4 > bytes.len() {
                Err(ErrorView::IoError)
            } else {
                Ok(
                    (
                        ConstantPoolItemView::Float(be_u32(bytes.subrange(pos, pos + 4)) as u32),
                        pos + 4,
                    ),
                )
            }
        },
        ConstantPoolItemTag::Long => {
            if pos + 8 > bytes.len() {
                Err(ErrorView::IoError)
            } else {
                Ok(
                    (
                        ConstantPoolItemView::Long(
                            to_signed_64(be_u64(bytes.subrange(pos, pos + 8))) as i64,
                        ),
                        pos + 8,
                    ),
                )
            }
        },
        ConstantPoolItemTag::Double => {
            if pos + 8 > bytes.len() {
                Err(ErrorView::IoError)
            } else {
                Ok(
                    (
                        ConstantPoolItemView::Double(be_u64(bytes.subrange(pos, pos + 8)) as u64),
                        pos + 8,
                    ),
                )
            }
        },
        ConstantPoolItemTag::MethodHandle => {
            if pos + 3 > bytes.len() {
                Err(ErrorView::IoError)
            } else {
                Ok((ConstantPoolItemView::Unsupported, pos + 3))
            }
        },
        ConstantPoolItemTag::Class | ConstantPoolItemTag::String
            | ConstantPoolItemTag::MethodType => {
            if pos + 2 > bytes.len() {
                Err(ErrorView::IoError)
            } else {
                Ok((ConstantPoolItemView::Unsupported, pos + 2))
            }
        },
        ConstantPoolItemTag::FieldRef | ConstantPoolItemTag::MethodRef
            | ConstantPoolItemTag::InterfaceMethodRef | ConstantPoolItemTag::NameAndType
            | ConstantPoolItemTag::InvokeDynamic => {
            if pos + 4 > bytes.len() {
                Err(ErrorView::IoError)
            } else {
                Ok((ConstantPoolItemView::Unsupported, pos + 4))
            }
        },
    }
}

/// What decoding one constant-pool entry (tag byte, then payload) from
/// `bytes` at `pos` yields: the decoded entry and the position one past its
/// payload, or the error that aborts the parse.
pub open spec fn spec_read_item(bytes: Seq<u8>, pos: int) -> Result<
    (ConstantPoolItemView, int),
    ErrorView,
> {
    if pos + 1 > bytes.len() {
        Err(ErrorView::IoError)
    } else {
        match ConstantPoolItemTag::spec_of_byte(bytes[pos]) {
            None => Err(ErrorView::InvalidConstantPoolItemTag(bytes[pos])),
            Some(tag) => spec_read_payload(bytes, pos + 1, tag),
        }
    }
}

/// Every unrecognized tag byte aborts the decode of an entry with "invalid
/// constant-pool tag" carrying that byte, whatever bytes follow it in the
/// stream.
pub proof fn lemma_unknown_tag_rejected(bytes: Seq<u8>, pos: int)
    requires
        0 <= pos,
        pos + 1 <= bytes.len(),
        ConstantPoolItemTag::spec_of_byte(bytes[pos]) is None,
    ensures
        spec_read_item(bytes, pos) == Err::<(ConstantPoolItemView, int), ErrorView>(
            ErrorView::InvalidConstantPoolItemTag(bytes[pos]),
        ),
{
}

/// Relies on `String::from_utf8` from std: it succeeds exactly when the bytes
/// are a valid UTF-8 encoding, the returned string's characters are the UTF-8
/// decoding of those bytes, and on failure the input bytes are recovered
/// unchanged from the error.
#[verifier::external_body]
fn utf8_from_bytes(bytes: Vec<u8>) -> (r: Result<String, Vec<u8>>)
    ensures
        match r {
            Ok(s) => valid_utf8(bytes@) && s@ == decode_utf8(bytes@),
            Err(b) => !valid_utf8(bytes@) && b@ == bytes@,
        },
{
    match String::from_utf8(bytes) {
        Ok(s) => Ok(s),
        Err(e) => Err(e.into_bytes()),
    }
}

/// Decodes one constant-pool entry: the tag byte, then exactly the payload
/// bytes prescribed for that tag. The result and the final cursor position
/// are the ones [`spec_read_item`] gives for the starting position.
pub fn read_constant_pool_item<'a>(reader: &mut Reader<'a>) -> (r: Result<ConstantPoolItem, Error>)
    requires
        old(reader).wf(),
    ensures
        final(reader).wf(),
        final(reader).data() == old(reader).data(),
        match r {
            Ok(item) => spec_read_item(old(reader).data(), old(reader).pos()) == Ok::<
                (ConstantPoolItemView, int),
                ErrorView,
            >((item@, final(reader).pos())),
            Err(e) => spec_read_item(old(reader).data(), old(reader).pos()) == Err::<
                (ConstantPoolItemView, int),
                ErrorView,
            >(e@),
        },
{
    let tag_byte = match reader.read_u8() {
        Ok(b) => b,
        Err(e) => {
            return Err(e);
        },
    };
    let tag = match ConstantPoolItemTag::try_from_u8(tag_byte) {
        Ok(t) => t,
        Err(e) => {
            return Err(e);
        },
    };
    match tag {
        ConstantPoolItemTag::Utf8 => {
            let strlen = match reader.read_u16() {
                Ok(v) => v,
                Err(e) => {
                    return Err(e);
                },
            };
            let utf8_bytes = match reader.read_exact(strlen as usize) {
                Ok(v) => v,
                Err(e) => {
                    return Err(e);
                },
            };
            match utf8_from_bytes(utf8_bytes) {
                Ok(s) => Ok(ConstantPoolItem::Utf8(s)),
                Err(b) => Err(Error::Utf8DecodeError(b)),
            }
        },
        ConstantPoolItemTag::Integer => {
            match reader.read_i32() {
                Ok(v) => Ok(ConstantPoolItem::Integer(v)),
                Err(e) => Err(e),
            }
        },
        ConstantPoolItemTag::Float => {
            match reader.read_u32() {
                Ok(bits) => Ok(ConstantPoolItem::Float(bits)),
                Err(e) => Err(e),
            }
        },
        ConstantPoolItemTag::Long => {
            match reader.read_i64() {
                Ok(v) => Ok(ConstantPoolItem::Long(v)),
                Err(e) => Err(e),
            }
        },
        ConstantPoolItemTag::Double => {
            match reader.read_u64() {
                Ok(bits) => Ok(ConstantPoolItem::Double(bits)),
                Err(e) => Err(e),
            }
        },
        ConstantPoolItemTag::Class => {
            match reader.read_u16() {
                Ok(_class_name_index) => Ok(ConstantPoolItem::Unsupported),
                Err(e) => Err(e),
            }
        },
        ConstantPoolItemTag::String => {
            match reader.read_u16() {
                Ok(_string_index) => Ok(ConstantPoolItem::Unsupported),
                Err(e) => Err(e),
            }
        },
        ConstantPoolItemTag::FieldRef | ConstantPoolItemTag::MethodRef
            | ConstantPoolItemTag::InterfaceMethodRef => {
            match reader.read_u16() {
                Ok(_class_index) => {
                    match reader.read_u16() {
                        Ok(_name_and_type_index) => Ok(ConstantPoolItem::Unsupported),
                        Err(e) => Err(e),
                    }
                },
                Err(e) => Err(e),
            }
        },
        ConstantPoolItemTag::NameAndType => {
            match reader.read_u16() {
                Ok(_name_index) => {
                    match reader.read_u16() {
                        Ok(_descriptor_index) => Ok(ConstantPoolItem::Unsupported),
                        Err(e) => Err(e),
                    }
                },
                Err(e) => Err(e),
            }
        },
        ConstantPoolItemTag::MethodHandle => {
            match reader.read_u8() {
                Ok(_reference_kind) => {
                    match reader.read_u16() {
                        Ok(_reference_index) => Ok(ConstantPoolItem::Unsupported),
                        Err(e) => Err(e),
                    }
                },
                Err(e) => Err(e),
            }
        },
        ConstantPoolItemTag::MethodType => {
            match reader.read_u16() {
                Ok(_descriptor_index) => Ok(ConstantPoolItem::Unsupported),
                Err(e) => Err(e),
            }
        },
        ConstantPoolItemTag::InvokeDynamic => {
            match reader.read_u16() {
                Ok(_bootstrap_method_attr_index) => {
                    match reader.read_u16() {
                        Ok(_name_and_type_index) => Ok(ConstantPoolItem::Unsupported),
                        Err(e) => Err(e),
                    }
                },
                Err(e) => Err(e),
            }
        },
    }
}

} // verus!
