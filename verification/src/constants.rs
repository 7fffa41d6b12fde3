//! The messages and status codes that the service layer can put in a response.

use vstd::prelude::*;

verus! {

pub const STATUS_OK: u16 = 200;
pub const STATUS_BAD_REQUEST: u16 = 400;
pub const STATUS_UNAUTHORIZED: u16 = 401;

pub const MESSAGE_OK: &'static str = "ok";
pub const MESSAGE_SIGNUP_SUCCESS: &'static str = "signed up successfully";
pub const MESSAGE_SIGNUP_FAILED: &'static str = "error when signing up, please try again";
pub const MESSAGE_LOGIN_SUCCESS: &'static str = "logged in successfully";
pub const MESSAGE_LOGIN_FAILED: &'static str = "wrong username or password, please try again";
pub const MESSAGE_INVALID_TOKEN: &'static str = "invalid token, please login again";
pub const MESSAGE_GET_USER_SUCCESS: &'static str = "found user successfully";
pub const MESSAGE_GET_USER_FAILED: &'static str = "wrong username, please try again";
pub const MESSAGE_USER_NOT_FOUND: &'static str =
    "could not identify the given user, please try again";

pub const MESSAGE_CREATE_LIST_SUCCESS: &'static str = "created list successfully";
pub const MESSAGE_CREATE_LIST_FAILED: &'static str = "error when creating list, please try again";
pub const MESSAGE_CREATE_LIST_ASSOCIATE_FAIL: &'static str =
    "error when associating the list with its owner, please try again";

pub const MESSAGE_DELETE_LIST_FAILED: &'static str = "error when deleting list, please try again";
pub const MESSAGE_DELETE_NOT_OWNER: &'static str = "error deleting list, user is not an owner";
pub const MESSAGE_DELETE_LIST_SUCCESS: &'static str = "deleted list successfully";

pub const MESSAGE_CREATE_ITEM_SUCCESS: &'static str = "created item successfully";
pub const MESSAGE_CREATE_ITEM_FAILED: &'static str = "error when creating item, please try again";

pub const MESSAGE_NO_ACCESS: &'static str = "you do not have access to the specified resource";

pub const MESSAGE_DELETE_ITEM_SUCCESS: &'static str = "deleted item successfully";
pub const MESSAGE_DELETE_ITEM_FAILED: &'static str = "error when deleting item, please try again";

pub const MESSAGE_GET_LIST_SUCCESS: &'static str = "got list successfully";
pub const MESSAGE_GET_LIST_FAILED: &'static str = "error when getting list, please try again";

pub const MESSAGE_UPDATE_SUCCESS: &'static str = "updated successfully";
pub const MESSAGE_UPDATE_FAILED: &'static str = "error when updating, please try again";

pub const MESSAGE_ITEM_NOT_OWNED_BY_LIST: &'static str =
    "error, item not owned by the specified list";

} // verus!
