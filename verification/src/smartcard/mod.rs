//! PIV smart-card protocol logic: BER-TLV coding, APDU exchanges, PIV
//! commands and RSA key-transport padding.
pub mod tlv;
pub mod apdu;
pub mod wrapping;
pub mod piv;
pub mod certificate;
pub mod round_trip;
