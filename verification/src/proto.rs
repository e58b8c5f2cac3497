//! Decoded game messages, as plain values: what the exporter reads from the
//! packets it is handed.
use vstd::prelude::*;

verus! {

/// One substat roll of a relic.
#[derive(Clone, Copy, Debug, PartialEq, Eq, Structural)]
pub struct RelicAffix {
    pub affix_id: u32,
    pub cnt: u32,
    pub step: u32,
}

/// A relic as the game sends it.
#[derive(Debug)]
pub struct ProtoRelic {
    pub tid: u32,
    pub unique_id: u32,
    pub level: u32,
    pub main_affix_id: u32,
    pub is_protected: bool,
    pub is_discarded: bool,
    pub equip_avatar_id: u32,
    pub sub_affix_list: Vec<RelicAffix>,
}

/// A light cone as the game sends it.
#[derive(Clone, Copy, Debug, PartialEq, Eq, Structural)]
pub struct ProtoLightCone {
    pub tid: u32,
    pub unique_id: u32,
    pub level: u32,
    pub rank: u32,
    pub promotion: u32,
    pub is_protected: bool,
    pub equip_avatar_id: u32,
}

/// A stack of a material as the game sends it.
#[derive(Clone, Copy, Debug, PartialEq, Eq, Structural)]
pub struct ProtoMaterial {
    pub tid: u32,
    pub num: u32,
}

/// One unlocked point of a character's skill tree.
#[derive(Clone, Copy, Debug, PartialEq, Eq, Structural)]
pub struct ProtoSkillTree {
    pub point_id: u32,
    pub level: u32,
}

/// A character as the game sends it.
#[derive(Debug)]
pub struct ProtoCharacter {
    pub base_avatar_id: u32,
    pub level: u32,
    pub promotion: u32,
    pub rank: u32,
    pub avatar_skilltree_list: Vec<ProtoSkillTree>,
}

/// The abstract value of a [`ProtoCharacter`].
pub struct ProtoCharacterV {
    pub base_avatar_id: u32,
    pub level: u32,
    pub promotion: u32,
    pub rank: u32,
    pub avatar_skilltree_list: Seq<ProtoSkillTree>,
}

impl View for ProtoCharacter {
    type V = ProtoCharacterV;

    open spec fn view(&self) -> ProtoCharacterV {
        ProtoCharacterV {
            base_avatar_id: self.base_avatar_id,
            level: self.level,
            promotion: self.promotion,
            rank: self.rank,
            avatar_skilltree_list: self.avatar_skilltree_list@,
        }
    }
}

impl Clone for ProtoCharacter {
    fn clone(&self) -> (r: Self)
        ensures
            r@ == self@,
    {
        let list = self.avatar_skilltree_list.clone();
        assert(list@ =~= self.avatar_skilltree_list@);
        ProtoCharacter {
            base_avatar_id: self.base_avatar_id,
            level: self.level,
            promotion: self.promotion,
            rank: self.rank,
            avatar_skilltree_list: list,
        }
    }
}

/// The path-specific data of a character with several paths.
#[derive(Debug)]
pub struct MultiPathAvatarInfo {
    pub avatar_id: u32,
    pub rank: u32,
    pub multipath_skilltree_list: Vec<ProtoSkillTree>,
}

/// The reply carrying the account id.
#[derive(Clone, Copy, Debug, PartialEq, Eq, Structural)]
pub struct PlayerGetTokenScRsp {
    pub uid: u32,
}

/// Currency amounts of the player.
#[derive(Clone, Copy, Debug, PartialEq, Eq, Structural)]
pub struct PlayerBasicInfo {
    pub oneric_shard_count: u32,
    pub stellar_jade_count: u32,
}

/// The login reply.
#[derive(Clone, Copy, Debug, PartialEq, Eq, Structural)]
pub struct PlayerLoginScRsp {
    pub basic_info: PlayerBasicInfo,
}

/// The inventory reply.
#[derive(Debug)]
pub struct GetBagScRsp {
    pub relic_list: Vec<ProtoRelic>,
    pub equipment_list: Vec<ProtoLightCone>,
    pub material_list: Vec<ProtoMaterial>,
}

/// The character list reply.
#[derive(Debug)]
pub struct GetAvatarDataScRsp {
    pub avatar_list: Vec<ProtoCharacter>,
    pub multi_path_avatar_info_list: Vec<MultiPathAvatarInfo>,
}

/// The reply to switching a character's ability version.
#[derive(Clone, Copy, Debug, PartialEq, Eq, Structural)]
pub struct SetAvatarEnhancedIdScRsp {
    pub growth_avatar_id: u32,
    pub skilltree_version: u32,
}

/// One banner of the gacha info reply.
#[derive(Debug)]
pub struct GachaInfo {
    pub gacha_id: u32,
    pub item_detail_list: Vec<u32>,
    pub prize_item_list: Vec<u32>,
}

/// The gacha info reply.
#[derive(Debug)]
pub struct GetGachaInfoScRsp {
    pub gacha_info_list: Vec<GachaInfo>,
}

/// One pulled item.
#[derive(Clone, Copy, Debug, PartialEq, Eq, Structural)]
pub struct GachaItem {
    pub item_id: u32,
}

/// The reply to a pull session.
#[derive(Debug)]
pub struct DoGachaScRsp {
    pub gacha_id: u32,
    pub gacha_item_list: Vec<GachaItem>,
}

/// Incremental changes pushed by the server.
#[derive(Debug)]
pub struct PlayerSyncScNotify {
    pub relic_list: Vec<ProtoRelic>,
    pub equipment_list: Vec<ProtoLightCone>,
    pub material_list: Vec<ProtoMaterial>,
    pub basic_info: Option<PlayerBasicInfo>,
    pub del_relic_list: Vec<u32>,
    pub del_equipment_list: Vec<u32>,
    pub avatar_sync: Option<Vec<ProtoCharacter>>,
    pub multi_path_avatar_info_list: Vec<MultiPathAvatarInfo>,
}

/// A decoded game command, by kind. The payload is `None` when the command
/// was recognised but its body could not be decoded.
#[derive(Debug)]
pub enum GameCommand {
    PlayerGetToken(Option<PlayerGetTokenScRsp>),
    PlayerLogin(Option<PlayerLoginScRsp>),
    GetBag(Option<GetBagScRsp>),
    GetAvatarData(Option<GetAvatarDataScRsp>),
    SetAvatarEnhancedId(Option<SetAvatarEnhancedIdScRsp>),
    GetGachaInfo(Option<GetGachaInfoScRsp>),
    DoGacha(Option<DoGachaScRsp>),
    PlayerSync(Option<PlayerSyncScNotify>),
    /// The end of the login sequence; the exporter ignores it.
    PlayerLoginFinish,
    /// Any other command id; the exporter ignores it.
    Other(u16),
}

} // verus!
