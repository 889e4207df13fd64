//! The compositor's own protocol state, as far as it is more than
//! bookkeeping.

pub mod background_effect;
