use vstd::prelude::*;

use crate::error::Error;
use crate::error::ErrorView;
use crate::pool::read_constant_pool_item;
use crate::pool::spec_read_item;
use crate::pool::views_of;
use crate::pool::ConstantPoolItem;
use crate::pool::ConstantPoolItemView;
use crate::reader::be_u16;
use crate::reader::Reader;

verus! {

/// A ClassFile version pair: major first, minor second. On the wire the
/// minor version precedes the major version.
#[derive(Debug, Clone, Copy, PartialEq, Eq, Structural)]
pub struct ClassFileVersion(pub u16, pub u16);

/// A parsed ClassFile header: the version and the constant pool, in the
/// exact order the entries were encountered in the stream.
#[derive(Debug, Clone, PartialEq)]
pub struct ClassFile {
    pub version: ClassFileVersion,
    pub constant_pool: Vec<ConstantPoolItem>,
}

/// The mathematical shape of a [`ClassFile`].
pub struct ClassFileView {
    pub version: ClassFileVersion,
    pub constant_pool: Seq<ConstantPoolItemView>,
}

impl View for ClassFile {
    type V = ClassFileView;

    open spec fn view(&self) -> ClassFileView {
        ClassFileView { version: self.version, constant_pool: views_of(self.constant_pool@) }
    }
}

/// The fixed four-byte magic sequence that opens every ClassFile.
pub open spec fn magic_seq() -> Seq<u8> {
    seq![0xCAu8, 0xFEu8, 0xBAu8, 0xBEu8]
}

/// What decoding constant-pool entries from `bytes` at `pos` yields until
/// `slots` logical slots are filled: the entries in stream order and the
/// position one past the pool, or the error that aborts the parse. An
/// eight-byte entry fills two slots, any other entry one; an eight-byte entry
/// decoded with a single slot left still ends the pool.
pub open spec fn spec_read_pool(bytes: Seq<u8>, pos: int, slots: int) -> Result<
    (Seq<ConstantPoolItemView>, int),
    ErrorView,
>
    decreases slots,
{
    if slots <= 0 {
        Ok((Seq::<ConstantPoolItemView>::empty(), pos))
    } else {
        match spec_read_item(bytes, pos) {
            Err(e) => Err(e),
            Ok((item, next_pos)) => {
                let step: int = if item.is_8byte() {
                    2
                } else {
                    1
                };
                let slots_left: int = if slots - step >= 0 {
                    slots - step
                } else {
                    0
                };
                match spec_read_pool(bytes, next_pos, slots_left) {
                    Err(e) => Err(e),
                    Ok((rest, end_pos)) => Ok((seq![item] + rest, end_pos)),
                }
            },
        }
    }
}

/// What decoding a whole ClassFile header from `bytes` yields: magic
/// validation first, then the version pair (minor before major on the wire),
/// then the constant-pool count and the pool itself. The count field encodes
/// the number of logical slots plus one; a zero count field, which no valid
/// encoder emits, is read as an empty pool.
pub open spec fn spec_read_from(bytes: Seq<u8>) -> Result<ClassFileView, ErrorView> {
    if bytes.len() < 4 {
        Err(ErrorView::IoError)
    } else if bytes.subrange(0, 4) != magic_seq() {
        Err(ErrorView::InvalidMagic(bytes.subrange(0, 4)))
    } else if bytes.len() < 10 {
        Err(ErrorView::IoError)
    } else {
        let minor = be_u16(bytes.subrange(4, 6));
        let major = be_u16(bytes.subrange(6, 8));
        let count = be_u16(bytes.subrange(8, 10));
        let slots: int = if count >= 1 {
            count - 1
        } else {
            0
        };
        match spec_read_pool(bytes, 10, slots) {
            Err(e) => Err(e),
            Ok((pool, _end_pos)) => Ok(
                (ClassFileView {
                    version: ClassFileVersion(major as u16, minor as u16),
                    constant_pool: pool,
                }),
            ),
        }
    }
}

/// For every byte stream of at least four bytes whose first four bytes are
/// not the magic sequence, decoding fails with "invalid magic" carrying
/// exactly those four observed bytes, regardless of the stream's length or
/// of what follows them.
pub proof fn lemma_invalid_magic_rejected(bytes: Seq<u8>)
    requires
        bytes.len() >= 4,
        bytes.subrange(0, 4) != magic_seq(),
    ensures
        spec_read_from(bytes) == Err::<ClassFileView, ErrorView>(
            ErrorView::InvalidMagic(bytes.subrange(0, 4)),
        ),
{
}

/// Decoding is deterministic: the outcome is a function of the input bytes
/// alone, so byte-identical inputs decode to equal results, however the
/// bytes were obtained.
pub proof fn lemma_decode_deterministic(bytes1: Seq<u8>, bytes2: Seq<u8>)
    requires
        bytes1 == bytes2,
    ensures
        spec_read_from(bytes1) == spec_read_from(bytes2),
{
}

/// An eight-byte entry at the head of the pool fills two logical slots: the
/// rest of the pool is decoded with two fewer slots — clamped at zero, so an
/// eight-byte entry decoded with a single slot left still ends the pool —
/// and the entry itself contributes one decoded item.
pub proof fn lemma_eight_byte_entry_fills_two_slots(
    bytes: Seq<u8>,
    pos: int,
    slots: int,
    item: ConstantPoolItemView,
    next_pos: int,
)
    requires
        slots >= 1,
        spec_read_item(bytes, pos) == Ok::<(ConstantPoolItemView, int), ErrorView>(
            (item, next_pos),
        ),
        item.is_8byte(),
    ensures
        spec_read_pool(bytes, pos, slots) == (match spec_read_pool(
            bytes,
            next_pos,
            if slots - 2 >= 0 {
                slots - 2
            } else {
                0
            },
        ) {
            Err(e) => Err::<(Seq<ConstantPoolItemView>, int), ErrorView>(e),
            Ok((rest, end_pos)) => Ok::<(Seq<ConstantPoolItemView>, int), ErrorView>(
                (seq![item] + rest, end_pos),
            ),
        }),
{
}

/// Decodes a ClassFile header from a byte stream: the result is exactly what
/// [`spec_read_from`] gives for those bytes. Header fields beyond the
/// constant pool are left unread.
#[verifier::loop_isolation(false)]
pub fn read_from(bytes: &[u8]) -> (r: Result<ClassFile, Error>)
    ensures
        match r {
            Ok(class_file) => spec_read_from(bytes@) == Ok::<ClassFileView, ErrorView>(
                class_file@,
            ),
            Err(e) => spec_read_from(bytes@) == Err::<ClassFileView, ErrorView>(e@),
        },
{
    let mut reader = Reader::new(bytes);

    let magic = match reader.read_exact(4) {
        Ok(v) => v,
        Err(e) => {
            return Err(e);
        },
    };
    let observed: [u8; 4] = [magic[0], magic[1], magic[2], magic[3]];
    proof {
        assert(observed@ =~= bytes@.subrange(0, 4));
        assert(magic_seq()[0] == 0xCA && magic_seq()[1] == 0xFE && magic_seq()[2] == 0xBA
            && magic_seq()[3] == 0xBE);
    }
    if !(observed[0] == 0xCA && observed[1] == 0xFE && observed[2] == 0xBA && observed[3] == 0xBE) {
        proof {
            assert(bytes@.subrange(0, 4) != magic_seq());
        }
        return Err(Error::InvalidMagic(observed));
    }
    proof {
        assert(bytes@.subrange(0, 4) =~= magic_seq());
    }

    // The format stores the minor version before the major version.
    let minor = match reader.read_u16() {
        Ok(v) => v,
        Err(e) => {
            return Err(e);
        },
    };
    let major = match reader.read_u16() {
        Ok(v) => v,
        Err(e) => {
            return Err(e);
        },
    };

    // The count field encodes the number of logical slots plus one, since
    // pool indices are 1-based with index 0 reserved. A zero count field is
    // read as an empty pool rather than rejected.
    let count = match reader.read_u16() {
        Ok(v) => v,
        Err(e) => {
            return Err(e);
        },
    };
    let slots: u16 = if count >= 1 {
        count - 1
    } else {
        0
    };

    let mut constant_pool_items: Vec<ConstantPoolItem> = Vec::new();
    let mut slot_index: u32 = 0;
    while slot_index < slots as u32
        invariant
            reader.wf(),
            reader.data() == bytes@,
            ({
                let slots_left: int = if slots - slot_index >= 0 {
                    slots - slot_index
                } else {
                    0
                };
                spec_read_pool(bytes@, 10, slots as int) == (match spec_read_pool(
                    bytes@,
                    reader.pos(),
                    slots_left,
                ) {
                    Err(e) => Err::<(Seq<ConstantPoolItemView>, int), ErrorView>(e),
                    Ok((rest, end_pos)) => Ok::<(Seq<ConstantPoolItemView>, int), ErrorView>(
                        (views_of(constant_pool_items@) + rest, end_pos),
                    ),
                })
            }),
        decreases (if slots - slot_index >= 0 {
            slots - slot_index
        } else {
            0
        }),
    {
        let ghost pool_before = constant_pool_items@;
        let ghost slots_left_before: int = slots - slot_index;

        let item = match read_constant_pool_item(&mut reader) {
            Ok(item) => item,
            Err(e) => {
                return Err(e);
            },
        };
        // Eight-byte entries occupy two consecutive logical slots.
        if item.is_8byte() {
            slot_index = slot_index + 2;
        } else {
            slot_index = slot_index + 1;
        }
        constant_pool_items.push(item);
        proof {
            assert(views_of(constant_pool_items@) =~= views_of(pool_before).push(item@));
            let step: int = if item@.is_8byte() {
                2
            } else {
                1
            };
            let slots_left: int = if slots_left_before - step >= 0 {
                slots_left_before - step
            } else {
                0
            };
            match spec_read_pool(bytes@, reader.pos(), slots_left) {
                Err(_) => {},
                Ok((rest, _end_pos)) => {
                    assert(views_of(pool_before) + (seq![item@] + rest) =~= views_of(
                        constant_pool_items@,
                    ) + rest);
                },
            }
        }
    }
    proof {
        let slots_left: int = if slots - slot_index >= 0 {
            slots - slot_index
        } else {
            0
        };
        assert(slots_left == 0);
        match spec_read_pool(bytes@, reader.pos(), 0) {
            Err(_) => {},
            Ok((rest, _end_pos)) => {
                assert(views_of(constant_pool_items@) + rest =~= views_of(constant_pool_items@));
            },
        }
    }

    Ok(ClassFile { version: ClassFileVersion(major, minor), constant_pool: constant_pool_items })
}

} // verus!

