pub mod cpumemvis;
