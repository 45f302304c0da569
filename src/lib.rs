//! Bookkeeping for a lattice-based field simulation driven on the GPU: the
//! geometry that ties the lattice to the canvas, and the orchestrator state
//! machine that decides which stage runs, with which dispatch size, and when
//! the field-setting kernel is replaced.
pub mod geometry;
pub mod simulator;
