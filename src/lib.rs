pub mod gcd;
pub mod rate;
pub mod units;
