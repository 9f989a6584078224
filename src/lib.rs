//! A small blog client: the post model, client-side routing, page state
//! machines, markup rendering and the post-creation flow.

pub mod create;
pub mod markup;
pub mod page;
pub mod post;
pub mod route;
pub mod screen;
pub mod text;
