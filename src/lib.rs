//! A small compiler toolchain whose core is the binary encoder of
//! stack-machine modules: the module representation and the serializer that
//! turns it into the bytes of the binary module format. Around it stand the
//! tokens, parser and syntax tree of the source language, and the lowering of
//! that tree to instructions.

pub mod ast;
pub mod binary;
pub mod encode_instr;
pub mod encode_module;
pub mod encode_typ;
pub mod instr;
pub mod module;
pub mod numvalue;
pub mod parse_error;
pub mod parser;
pub mod precedence;
pub mod token;
pub mod token_buffer;
pub mod token_kind;
pub mod translate;
pub mod typ;
pub mod util;
