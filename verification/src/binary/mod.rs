pub mod module_parser;
pub mod parse_trait;
pub mod parser_helpers;
pub mod parsers;
pub mod syntax_error;
