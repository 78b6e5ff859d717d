//! Parameters of the secondary pairing group (G2) of the CP6-782 curve, a
//! short-Weierstrass curve over a cubic extension of its 782-bit base field,
//! and the prepared-point wrapper handed to pairing computations.
pub mod limbs;
pub mod fields;
pub mod params;
pub mod g2;
