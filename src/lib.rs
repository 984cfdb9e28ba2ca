pub mod types;
pub mod math;
pub mod collision;
pub mod event_queue;
pub mod formation;
pub mod consts;
pub mod pad;
pub mod render;
pub mod recaptured_fighter;
pub mod player;
pub mod fighter;
pub mod shot;
pub mod classic;
pub mod traj;
pub mod capture;
pub mod scripts;
pub mod enemy;
pub mod enemy_manager;
pub mod traj_laws;
pub mod game;
pub mod galangua_app;
pub mod appearance;
