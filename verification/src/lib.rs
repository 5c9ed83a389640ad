pub mod icon;
