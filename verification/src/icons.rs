//! The rules of the icon generator: the master image must be at least
//! 128 pixels on each side, and each icon is written as `<name><size>.png`.
use vstd::prelude::*;
use vstd::string::*;

use crate::text::{decimal, decimal_text};

verus! {

/// The smallest width and height of a master image, in pixels.
pub const MIN_MASTER_SIDE: u32 = 128;

/// Starts the message for a master image that is too small.
pub const TOO_SMALL_START: &'static str = "Input image is too small (";

/// Separates width and height in that message.
pub const TOO_SMALL_BY: &'static str = "x";

/// Ends the message for a master image that is too small.
pub const TOO_SMALL_END: &'static str = "). Use at least 128×128 (1024×1024 recommended).";

/// The extension of icon files.
pub const ICON_EXTENSION: &'static str = ".png";

/// What checking a master image's size gives.
pub open spec fn spec_check_master_size(width: u32, height: u32) -> Result<(), Seq<char>> {
    if width < 128 || height < 128 {
        Err(TOO_SMALL_START@ + decimal(width as nat) + TOO_SMALL_BY@ + decimal(height as nat) + TOO_SMALL_END@)
    } else {
        Ok(())
    }
}

/// Refuses a master image smaller than 128 pixels on either side.
pub fn check_master_size(width: u32, height: u32) -> (res: Result<(), String>)
    ensures
        res matches Ok(_) ==> spec_check_master_size(width, height) is Ok,
        res matches Err(e) ==> spec_check_master_size(width, height) == Err::<(), _>(e@),
        res is Ok <==> width >= 128 && height >= 128,
{
    if width < MIN_MASTER_SIDE || height < MIN_MASTER_SIDE {
        let mut message = TOO_SMALL_START.to_owned();
        let w = decimal_text(width as usize);
        message.append(w.as_str());
        message.append(TOO_SMALL_BY);
        let h = decimal_text(height as usize);
        message.append(h.as_str());
        message.append(TOO_SMALL_END);
        Err(message)
    } else {
        Ok(())
    }
}

/// The file name of the icon of a size: `<name><size>.png`.
pub fn icon_file_name(name: &str, size: u32) -> (file: String)
    ensures
        file@ == name@ + decimal(size as nat) + ICON_EXTENSION@,
{
    let mut file = name.to_owned();
    let digits = decimal_text(size as usize);
    file.append(digits.as_str());
    file.append(ICON_EXTENSION);
    file
}

} // verus!

verus! {

/// A master image is accepted exactly when it is at least 128 pixels wide
/// and at least 128 pixels high, whatever its shape; a refusal names its
/// width and height.
pub proof fn lemma_master_size_accepts_any_shape(width: u32, height: u32)
    ensures
        spec_check_master_size(width, height) is Ok <==> width >= 128 && height >= 128,
        spec_check_master_size(width, height) matches Err(e) ==> e == TOO_SMALL_START@ + decimal(width as nat)
            + TOO_SMALL_BY@ + decimal(height as nat) + TOO_SMALL_END@,
{
}

} // verus!
