pub mod general;
pub mod x87;
pub mod sse;
pub mod avx;
pub mod opmask;
pub mod avx512;
pub mod branches;
pub mod checksum;
pub mod stack;
