pub mod sheet;
pub mod combat;
pub mod unit_interact;
pub mod building_interact;
pub mod unit_turn;
pub mod building;
pub mod turn;
pub mod rescalc;
pub mod win_check;
pub mod resdisplay;
pub mod mouse;
pub mod layout;
