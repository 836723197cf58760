//! Parameter widgets and editor glue for plugin GUIs: the decisions that the
//! widgets and the editor make, stated and proved.

pub mod editor;
pub mod widgets;
