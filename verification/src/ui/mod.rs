pub mod widget;
