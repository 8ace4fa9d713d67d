pub mod boolean;
pub mod context;
pub mod convert;
pub mod error;
pub mod function;
pub mod lemmas;
pub mod number;
pub mod object;
pub mod runtime;
pub mod script;
pub mod string;
pub mod value;
