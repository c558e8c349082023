pub mod supervisor;
