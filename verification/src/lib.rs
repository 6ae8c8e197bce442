//! Procedural macros of an embedded operating system, as a verified library:
//! each macro reads a flat model of its input tokens and answers with a plan
//! of the items it expands to.

pub mod token;
pub mod case;
pub mod bitfield;
pub mod heap;
pub mod reg;
pub mod reg_expansion;
pub mod idents;
pub mod reg_tokens;
pub mod reg_tokens_expansion;
pub mod static_tokens;
pub mod thr;
pub mod bitfield_meta;
pub mod thread_local;
pub mod reg_map;
pub mod reg_map_expansion;
pub mod bindings;
pub mod mappings;
pub mod mappings_expansion;
pub mod thr_pool;
pub mod thr_soft;
pub mod reg_block;
pub mod bind;
pub mod simple_tokens;
pub mod reg_tokens_inner;
pub mod reg_assert_taken;
pub mod stream;
pub mod async_future;
pub mod periph;
pub mod periph_map;
pub mod periph_singular;
pub mod res_one;
pub mod res;
pub mod overrides;
pub mod thr_static;
pub mod driver;
pub mod reg_tokens_struct;
pub mod reg_mappings;
pub mod reg_mappings_expansion;
