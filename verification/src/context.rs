//! The GUI's context: the handle through which the GUI is configured, driven
//! and asked what it wants. What goes on behind the handle is the GUI's own
//! business; nothing is claimed of it here.
use vstd::prelude::*;

verus! {

/// `egui::Context`, taken as opaque: a handle that is kept and handed on,
/// never looked into.
#[verifier::external_type_specification]
#[verifier::external_body]
pub struct ExContext(egui::Context);

/// `egui::FontDefinitions`, taken as opaque: fonts that are handed to the
/// context as they come.
#[verifier::external_type_specification]
#[verifier::external_body]
pub struct ExFontDefinitions(egui::FontDefinitions);

/// `egui::Style`, taken as opaque: a style that is handed to the context as
/// it comes.
#[verifier::external_type_specification]
#[verifier::external_body]
pub struct ExStyle(egui::Style);

/// `egui::FontDefinitions::default`: the fonts that the GUI comes with.
/// Nothing is claimed of them.
#[verifier::external_body]
pub(crate) fn default_fonts() -> (font_definitions: egui::FontDefinitions) {
    egui::FontDefinitions::default()
}

/// `egui::Style::default`: the style that the GUI comes with. Nothing is
/// claimed of it.
#[verifier::external_body]
pub(crate) fn default_style() -> (style: egui::Style) {
    egui::Style::default()
}

/// `egui::Context::default`: a new context. Nothing is claimed of it.
#[verifier::external_body]
pub(crate) fn new_context() -> (context: egui::Context) {
    egui::Context::default()
}

/// `egui::Context::set_fonts`: tells the GUI which fonts to use. Nothing is
/// claimed of the effect.
#[verifier::external_body]
pub(crate) fn set_fonts(context: &egui::Context, font_definitions: egui::FontDefinitions) {
    context.set_fonts(font_definitions)
}

/// `egui::Context::set_style`: tells the GUI which style to use. Nothing is
/// claimed of the effect.
#[verifier::external_body]
pub(crate) fn set_style(context: &egui::Context, style: egui::Style) {
    context.set_style(style)
}

/// `egui::Context::clone`: another handle to the same context. A context
/// counts its handles, every clone refers to the same data, and two handles
/// are equal exactly when they do: so the clone is equal to the handle it was
/// made from.
#[verifier::external_body]
pub(crate) fn share(context: &egui::Context) -> (shared: egui::Context)
    ensures
        shared == *context,
{
    context.clone()
}

/// `egui::Context::wants_keyboard_input`: whether the GUI is listening to the
/// keyboard. The answer depends on the GUI's state, of which nothing is
/// claimed.
#[verifier::external_body]
pub(crate) fn wants_keyboard_input(context: &egui::Context) -> (wants: bool) {
    context.wants_keyboard_input()
}

/// `egui::Context::wants_pointer_input`: whether the GUI is interested in the
/// pointer. The answer depends on the GUI's state, of which nothing is
/// claimed.
#[verifier::external_body]
pub(crate) fn wants_pointer_input(context: &egui::Context) -> (wants: bool) {
    context.wants_pointer_input()
}

/// `egui::Context::is_using_pointer`: whether the GUI is using the pointer's
/// position. The answer depends on the GUI's state, of which nothing is
/// claimed.
#[verifier::external_body]
pub(crate) fn is_using_pointer(context: &egui::Context) -> (using: bool) {
    context.is_using_pointer()
}

} // verus!
