//! A small 2D level-editor core: a sprite-atlas builder fed by a side-car
//! text description, a pan/zoom camera whose zoom is anchored at the cursor,
//! a screen-to-world cursor mapper, a canvas of placed tiles with
//! point-containment queries, and the three-state application mode that ties
//! the pieces together.
//!
//! All geometry is carried in fixed-point milli-units (`fixed::FP_ONE`
//! milli-units to one world unit), so every camera and tile computation is
//! exact integer arithmetic.
pub mod atlas;
pub mod camera;
pub mod cursor;
pub mod editor;
pub mod fixed;
pub mod menu;
pub mod scan;
pub mod states;
pub mod tiles;
