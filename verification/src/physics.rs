pub mod inertia;
