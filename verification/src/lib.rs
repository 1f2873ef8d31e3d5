//! A single on-screen presentation surface backed by a GPU rendering
//! pipeline: a compositor-negotiated layer surface, a GPU session binding a
//! device, queue and swapchain to it, per-frame render targets, one recorded
//! and presented frame, and an event-driven shutdown handshake. The
//! decisions — size negotiation, device and swapchain selection, render
//! target construction, the frame plan, and the run-loop coordinator — live
//! here with their contracts; the wire traffic to the compositor and the GPU
//! driver stays at the process edge.

pub mod draw;
