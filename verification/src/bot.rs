use vstd::prelude::*;

verus! {

/// Key under which the bot's shared state is stored in the client's data.
pub struct BotStateKey;

} // verus!
