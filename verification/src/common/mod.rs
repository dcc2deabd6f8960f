//! Building blocks shared by both device classes.

use vstd::prelude::*;

pub mod clock;
pub mod error;
pub mod fields;
pub mod frequency;
pub mod message;
pub mod model;
pub mod screen_data;
pub mod serial_number;
pub mod setup_info;
pub mod text;

pub use error::{ConnectionError, Error, MessageParseError};
pub use frequency::Frequency;
pub use message::MessageContainer;
pub use model::Model;
pub use screen_data::ScreenData;
pub use serial_number::SerialNumber;
pub use setup_info::SetupInfo;

verus! {

/// The value of what an option holds, where it holds something.
pub open spec fn option_view<T: View>(option: Option<T>) -> Option<T::V> {
    match option {
        Some(value) => Some(value@),
        None => None,
    }
}

} // verus!
