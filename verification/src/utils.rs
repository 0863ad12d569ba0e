//! Content sniffing and small helpers around the standard library.
//!
//! Files and archive members are classified by magic-number prefix, never by
//! file name: the viewer decides between the archive, document and directory
//! loaders from these first bytes alone.

use vstd::prelude::*;

verus! {

/// The content classes the viewer distinguishes, by magic-number prefix.
#[derive(Clone, Copy, Debug, PartialEq, Eq, Structural)]
pub enum FileType {
    ZIP,
    SpannedZip,
    PNG,
    JPG,
    PDF,
    NONE,
}

/// What `detect_file_type_from_bytes` returns: the first recognized
/// magic-number prefix, or `NONE` when the buffer is shorter than five bytes
/// or matches no known prefix.
pub open spec fn spec_file_type_of(bytes: Seq<u8>) -> FileType {
    if bytes.len() < 5 {
        FileType::NONE
    } else if bytes[0] == 0xFF && bytes[1] == 0xD8 && bytes[2] == 0xFF {
        FileType::JPG
    } else if bytes[0] == 0x89 && bytes[1] == 0x50 && bytes[2] == 0x4E && bytes[3] == 0x47 {
        FileType::PNG
    } else if bytes[0] == 0x50 && bytes[1] == 0x4B && bytes[2] == 0x03 && bytes[3] == 0x04 {
        FileType::ZIP
    } else if bytes[0] == 0x50 && bytes[1] == 0x4B && bytes[2] == 0x07 && bytes[3] == 0x08 {
        FileType::SpannedZip
    } else if bytes[0] == 0x25 && bytes[1] == 0x50 && bytes[2] == 0x44 && bytes[3] == 0x46
        && bytes[4] == 0x2D {
        FileType::PDF
    } else {
        FileType::NONE
    }
}

/// Classifies a byte buffer by its magic-number prefix: JPEG (`FF D8 FF`),
/// PNG (`89 50 4E 47`), ZIP (`50 4B 03 04`), spanned ZIP (`50 4B 07 08`) or
/// PDF (`25 50 44 46 2D`). Anything else, including buffers shorter than
/// five bytes, is `NONE`, not an error.
pub fn detect_file_type_from_bytes(bytes: &[u8]) -> (t: FileType)
    ensures
        t == spec_file_type_of(bytes@),
{
    if bytes.len() < 5 {
        return FileType::NONE;
    }

    let first = bytes[0];
    let second = bytes[1];
    let third = bytes[2];
    let fourth = bytes[3];
    let fifth = bytes[4];

    if first == 0xFF && second == 0xD8 && third == 0xFF {
        return FileType::JPG;
    }

    if first == 0x89 && second == 0x50 && third == 0x4E && fourth == 0x47 {
        return FileType::PNG;
    }

    if first == 0x50 && second == 0x4B && third == 0x03 && fourth == 0x04 {
        return FileType::ZIP;
    }

    if first == 0x50 && second == 0x4B && third == 0x07 && fourth == 0x08 {
        return FileType::SpannedZip;
    }

    if first == 0x25 && second == 0x50 && third == 0x44 && fourth == 0x46 && fifth == 0x2D {
        return FileType::PDF;
    }

    FileType::NONE
}

/// Relies on `std::time::SystemTime::now` and
/// `SystemTime::duration_since(UNIX_EPOCH)`: seconds since the Unix epoch,
/// or an error when the clock reads earlier than the epoch. The value
/// depends on the wall clock, so nothing is promised of it.
#[verifier::external_body]
fn clock_unix_seconds() -> Result<u64, ()> {
    match std::time::SystemTime::now().duration_since(std::time::UNIX_EPOCH) {
        Ok(duration) => Ok(duration.as_secs()),
        Err(_) => Err(()),
    }
}

/// The current wall-clock time as whole seconds since the Unix epoch, or
/// `None` when the clock reads earlier than the epoch.
pub fn get_current_unixtime() -> Option<u64> {
    match clock_unix_seconds() {
        Ok(seconds) => Some(seconds),
        Err(_) => None,
    }
}

#[verifier::external_type_specification]
#[verifier::external_body]
#[verifier::reject_recursive_types(T)]
pub struct ExRefCell<T: ?Sized>(core::cell::RefCell<T>);

/// Relies on `core::cell::RefCell::try_borrow`: applies `f` to the value
/// held in the cell, if any. A cell that is currently mutably borrowed
/// yields `None`, like an empty cell, rather than panicking. The cell's
/// content is invisible to the verifier, so nothing is promised of the
/// result.
#[verifier::external_body]
pub fn get_value_with_option_from_ref_cell_option<T, R, F>(
    data: &core::cell::RefCell<Option<T>>,
    f: F,
) -> Option<R> where F: Fn(&T) -> R {
    match data.try_borrow() {
        Ok(guard) => match guard.as_ref() {
            Some(v) => Some(f(v)),
            None => None,
        },
        Err(_) => None,
    }
}

} // verus!
