//! What a callee denotes.
//!
//! Name resolution is done elsewhere. What it finds of the identifier that a
//! callee starts with comes in as a [`Binding`]; from that this module works
//! out which export of which library the callee is, and the result is kept
//! on the call for the rules to read.

use crate::syntax::{CallExpression, CallTarget, ReactLibrary};
use crate::text::is_text;
use vstd::prelude::*;

verus! {

/// What name resolution knows of an identifier.
#[derive(Debug, PartialEq, Eq)]
pub enum Binding {
    /// Declared nowhere in the file: a global.
    Global,
    /// Bound to a whole module: `import name from "source"` or
    /// `import * as name from "source"`.
    ImportedModule { source: String },
    /// Bound to one export of a module:
    /// `import { imported as name } from "source"`.
    ImportedName { source: String, imported: String },
    /// Declared in any other way.
    Other,
}

/// The library that a module name stands for.
pub open spec fn library_of_module(source: Seq<char>) -> Option<ReactLibrary> {
    if source == "react"@ {
        Some(ReactLibrary::React)
    } else if source == "react-dom"@ {
        Some(ReactLibrary::ReactDom)
    } else {
        None
    }
}

/// The library that a global name stands for.
pub open spec fn library_of_global(name: Seq<char>) -> Option<ReactLibrary> {
    if name == "React"@ {
        Some(ReactLibrary::React)
    } else if name == "ReactDOM"@ {
        Some(ReactLibrary::ReactDom)
    } else {
        None
    }
}

/// A target as a library and the characters of a name.
pub open spec fn target_view(target: Option<CallTarget>) -> Option<(ReactLibrary, Seq<char>)> {
    match target {
        Some(target) => Some((target.library, target.export_name@)),
        None => None,
    }
}

/// What `object.member` denotes: the export `member` of the library that
/// `object` is bound to by an import of the whole module, or that it names
/// as a global.
pub open spec fn member_callee_target(
    object_name: Seq<char>,
    binding: Binding,
    member_name: Seq<char>,
) -> Option<(ReactLibrary, Seq<char>)> {
    let library = match binding {
        Binding::Global => library_of_global(object_name),
        Binding::ImportedModule { source } => library_of_module(source@),
        _ => None,
    };
    match library {
        Some(library) => Some((library, member_name)),
        None => None,
    }
}

/// What a plain identifier denotes: the export that it is bound to by an
/// import of that one name from a library.
pub open spec fn identifier_callee_target(binding: Binding) -> Option<(ReactLibrary, Seq<char>)> {
    match binding {
        Binding::ImportedName { source, imported } => match library_of_module(source@) {
            Some(library) => Some((library, imported@)),
            None => None,
        },
        _ => None,
    }
}

/// The target is the export `api_name` of `lib`.
pub open spec fn denotes_api(target: Option<CallTarget>, lib: ReactLibrary, api_name: Seq<char>) -> bool {
    target_view(target) == Some((lib, api_name))
}

/// Tells the library that a module name stands for.
pub fn module_library(source: &String) -> (library: Option<ReactLibrary>)
    ensures
        library == library_of_module(source@),
{
    if is_text(source.as_str(), "react") {
        Some(ReactLibrary::React)
    } else if is_text(source.as_str(), "react-dom") {
        Some(ReactLibrary::ReactDom)
    } else {
        None
    }
}

/// Tells the library that a global name stands for.
pub fn global_library(name: &String) -> (library: Option<ReactLibrary>)
    ensures
        library == library_of_global(name@),
{
    if is_text(name.as_str(), "React") {
        Some(ReactLibrary::React)
    } else if is_text(name.as_str(), "ReactDOM") {
        Some(ReactLibrary::ReactDom)
    } else {
        None
    }
}

/// Resolves a callee of the shape `object.member`, where `object` is an
/// identifier with the given binding.
pub fn resolve_member_callee(
    object_name: &String,
    binding: &Binding,
    member_name: &String,
) -> (target: Option<CallTarget>)
    ensures
        target_view(target) == member_callee_target(object_name@, *binding, member_name@),
{
    let library = match binding {
        Binding::Global => global_library(object_name),
        Binding::ImportedModule { source } => module_library(source),
        _ => None,
    };
    match library {
        Some(library) => Some(CallTarget { library, export_name: member_name.clone() }),
        None => None,
    }
}

/// Resolves a callee that is a plain identifier with the given binding.
pub fn resolve_identifier_callee(binding: &Binding) -> (target: Option<CallTarget>)
    ensures
        target_view(target) == identifier_callee_target(*binding),
{
    match binding {
        Binding::ImportedName { source, imported } => match module_library(source) {
            Some(library) => Some(CallTarget { library, export_name: imported.clone() }),
            None => None,
        },
        _ => None,
    }
}

/// Whether the callee of `call` is the export `api_name` of `lib`. A callee
/// that was not resolved is none.
pub fn is_react_call_api(call: &CallExpression, lib: ReactLibrary, api_name: &str) -> (found: bool)
    ensures
        found == denotes_api(call.target, lib, api_name@),
{
    match &call.target {
        Some(target) => target.library == lib && is_text(target.export_name.as_str(), api_name),
        None => false,
    }
}

} // verus!
