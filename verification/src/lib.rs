//! Game logic of a memory card game played in the browser: the game state,
//! the text that the html templates ask for, the routing rules and the
//! reactions to clicks and messages.

pub mod text;
pub mod gamedatamod;
pub mod rootrenderingcomponentmod;
pub mod storagemod;
pub mod divnicknamemod;
pub mod fncallermod;
pub mod fetchmod;
pub mod status1stcardmod;
pub mod statusjoinedmod;
pub mod routermod;
