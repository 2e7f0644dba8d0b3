//! The wire forms of the basic types.

pub mod bool_impl;
pub mod option_impls;
pub mod string_impl;
mod tuple_2_impl;
mod u32_impl;
mod u64_impl;
mod u8_impl;
mod unit_impl;
pub mod vec_u8_impl;
