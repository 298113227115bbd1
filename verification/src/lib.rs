pub mod algebra;
pub mod vector_space;
pub mod ode;
pub mod euler;
pub mod runge_kutta;
pub mod samples;
pub mod array_stats;
pub mod statistics;
