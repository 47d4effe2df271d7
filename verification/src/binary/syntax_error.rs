use vstd::prelude::*;

verus! {

/// The errors of the module parser.
#[derive(Debug, Clone, Copy, PartialEq, Eq, Structural)]
pub enum SyntaxError {
    UnexpectedSectionIdValue,
    ModuleMagicNotFound,
    ModuleVersionNotFound,
    InvalidModuleSection,
    InvalidTypesModuleSection,
    InvalidCodeModuleSection,
    InvalidFuncsModuleSection,
    InvalidImportsModuleSection,
    InvalidTablesModuleSection,
    InvalidMemsModuleSection,
    InvalidGlobalsModuleSection,
    InvalidStartModuleSection,
    InvalidElementSegmentModuleSection,
    InvalidDatasModuleSection,
    InvalidDataCountModuleSection,
    DataCountDoesntMatchDataLen,
}

pub type ParseResult<T> = Result<T, SyntaxError>;

} // verus!
