//! List of traits that are available to wrappers, where items are unit structs.

use vstd::prelude::*;

verus! {

/// Marks forwarding of the drawing capabilities that wrappers rely on.
#[derive(Debug, Clone, Copy)]
pub struct DrawTargetBackend;

/// Marks forwarding of the backend configuration.
#[derive(Debug, Clone, Copy)]
pub struct ConfigureBackend;

/// Marks forwarding of the blink layer configuration.
#[derive(Debug, Clone, Copy)]
pub struct ConfigureBlinkWrapper;

/// Marks forwarding of the cursor layer configuration.
#[derive(Debug, Clone, Copy)]
pub struct ConfigureCursorWrapper;

/// Marks forwarding of the blinking animation controls.
#[derive(Debug, Clone, Copy)]
pub struct ControlBlinking;

/// Marks forwarding of the cursor blinking controls.
#[derive(Debug, Clone, Copy)]
pub struct ControlCursorBlinking;

} // verus!
