//! A friend of the signed-in user, as the friends list and the pipeline describe one.
//! Every member may be absent; absent members take their empty value.
use vstd::prelude::*;
use crate::decode::{
    default_text_list_member, default_text_member, either, err_of, is_object, not_struct_message,
    opt_str, opt_text_member, read_default_text, read_default_text_list, read_opt_text,
    record_problem, Content,
};
use crate::json::{Json, JsonView};
use crate::text::strs;

verus! {

/// A friend record.
#[derive(Debug, Clone, PartialEq, Eq)]
pub struct Friend {
    pub id: String,
    pub display_name: String,
    pub status: Option<String>,
    pub status_description: Option<String>,
    pub user_icon: Option<String>,
    pub profile_pic_override_thumbnail: Option<String>,
    pub current_avatar_thumbnail_image_url: Option<String>,
    pub current_avatar_image_url: Option<String>,
    pub image_url: Option<String>,
    pub tags: Vec<String>,
    pub platform: Option<String>,
    pub location: Option<String>,
}

/// The abstract value of a [`Friend`].
pub struct FriendView {
    pub id: Seq<char>,
    pub display_name: Seq<char>,
    pub status: Option<Seq<char>>,
    pub status_description: Option<Seq<char>>,
    pub user_icon: Option<Seq<char>>,
    pub profile_pic_override_thumbnail: Option<Seq<char>>,
    pub current_avatar_thumbnail_image_url: Option<Seq<char>>,
    pub current_avatar_image_url: Option<Seq<char>>,
    pub image_url: Option<Seq<char>>,
    pub tags: Seq<Seq<char>>,
    pub platform: Option<Seq<char>>,
    pub location: Option<Seq<char>>,
}

impl View for Friend {
    type V = FriendView;

    open spec fn view(&self) -> FriendView {
        FriendView {
            id: self.id@,
            display_name: self.display_name@,
            status: opt_str(self.status),
            status_description: opt_str(self.status_description),
            user_icon: opt_str(self.user_icon),
            profile_pic_override_thumbnail: opt_str(self.profile_pic_override_thumbnail),
            current_avatar_thumbnail_image_url: opt_str(self.current_avatar_thumbnail_image_url),
            current_avatar_image_url: opt_str(self.current_avatar_image_url),
            image_url: opt_str(self.image_url),
            tags: strs(self.tags@),
            platform: opt_str(self.platform),
            location: opt_str(self.location),
        }
    }
}

/// The friend that `v` decodes to, if it decodes.
pub open spec fn decoded_friend(v: JsonView) -> Option<FriendView> {
    if Friend::problem(v) is Some {
        None
    } else {
        Some(
            FriendView {
                id: default_text_member(v, "id"@)->Ok_0,
                display_name: default_text_member(v, "displayName"@)->Ok_0,
                status: opt_text_member(v, "status"@)->Ok_0,
                status_description: opt_text_member(v, "statusDescription"@)->Ok_0,
                user_icon: opt_text_member(v, "userIcon"@)->Ok_0,
                profile_pic_override_thumbnail: opt_text_member(
                    v,
                    "profilePicOverrideThumbnail"@,
                )->Ok_0,
                current_avatar_thumbnail_image_url: opt_text_member(
                    v,
                    "currentAvatarThumbnailImageUrl"@,
                )->Ok_0,
                current_avatar_image_url: opt_text_member(v, "currentAvatarImageUrl"@)->Ok_0,
                image_url: opt_text_member(v, "imageUrl"@)->Ok_0,
                tags: default_text_list_member(v, "tags"@)->Ok_0,
                platform: opt_text_member(v, "platform"@)->Ok_0,
                location: opt_text_member(v, "location"@)->Ok_0,
            },
        )
    }
}

impl Friend {
    /// Decodes a friend; `Some` exactly when the JSON decodes as one.
    pub fn decode(v: &Json) -> (r: Option<Friend>)
        ensures
            r is Some <==> decoded_friend(v@) is Some,
            r is Some ==> r.unwrap()@ == decoded_friend(v@).unwrap(),
    {
        match Friend::from_json(v) {
            Ok(f) => Some(f),
            Err(_) => None,
        }
    }
}

impl Content for Friend {
    open spec fn problem(v: JsonView) -> Option<Seq<char>> {
        record_problem(
            v,
            "Friend"@,
            either(
                err_of(default_text_member(v, "id"@)),
                either(
                    err_of(default_text_member(v, "displayName"@)),
                    either(
                        err_of(opt_text_member(v, "status"@)),
                        either(
                            err_of(opt_text_member(v, "statusDescription"@)),
                            either(
                                err_of(opt_text_member(v, "userIcon"@)),
                                either(
                                    err_of(opt_text_member(v, "profilePicOverrideThumbnail"@)),
                                    either(
                                        err_of(
                                            opt_text_member(v, "currentAvatarThumbnailImageUrl"@),
                                        ),
                                        either(
                                            err_of(opt_text_member(v, "currentAvatarImageUrl"@)),
                                            either(
                                                err_of(opt_text_member(v, "imageUrl"@)),
                                                either(
                                                    err_of(default_text_list_member(v, "tags"@)),
                                                    either(
                                                        err_of(opt_text_member(v, "platform"@)),
                                                        err_of(opt_text_member(v, "location"@)),
                                                    ),
                                                ),
                                            ),
                                        ),
                                    ),
                                ),
                            ),
                        ),
                    ),
                ),
            ),
        )
    }

    open spec fn decoded(&self, v: JsonView) -> bool {
        &&& default_text_member(v, "id"@) == Ok::<Seq<char>, Seq<char>>(self.id@)
        &&& default_text_member(v, "displayName"@) == Ok::<Seq<char>, Seq<char>>(
            self.display_name@,
        )
        &&& opt_text_member(v, "status"@) == Ok::<Option<Seq<char>>, Seq<char>>(opt_str(self.status))
        &&& opt_text_member(v, "statusDescription"@) == Ok::<Option<Seq<char>>, Seq<char>>(
            opt_str(self.status_description),
        )
        &&& opt_text_member(v, "userIcon"@) == Ok::<Option<Seq<char>>, Seq<char>>(
            opt_str(self.user_icon),
        )
        &&& opt_text_member(v, "profilePicOverrideThumbnail"@) == Ok::<
            Option<Seq<char>>,
            Seq<char>,
        >(opt_str(self.profile_pic_override_thumbnail))
        &&& opt_text_member(v, "currentAvatarThumbnailImageUrl"@) == Ok::<
            Option<Seq<char>>,
            Seq<char>,
        >(opt_str(self.current_avatar_thumbnail_image_url))
        &&& opt_text_member(v, "currentAvatarImageUrl"@) == Ok::<Option<Seq<char>>, Seq<char>>(
            opt_str(self.current_avatar_image_url),
        )
        &&& opt_text_member(v, "imageUrl"@) == Ok::<Option<Seq<char>>, Seq<char>>(
            opt_str(self.image_url),
        )
        &&& default_text_list_member(v, "tags"@) == Ok::<Seq<Seq<char>>, Seq<char>>(
            strs(self.tags@),
        )
        &&& opt_text_member(v, "platform"@) == Ok::<Option<Seq<char>>, Seq<char>>(
            opt_str(self.platform),
        )
        &&& opt_text_member(v, "location"@) == Ok::<Option<Seq<char>>, Seq<char>>(
            opt_str(self.location),
        )
    }

    fn from_json(v: &Json) -> (r: Result<Self, String>) {
        if !is_object(v) {
            return Err(not_struct_message("Friend"));
        }
        let id = match read_default_text(v, "id") {
            Ok(x) => x,
            Err(e) => return Err(e),
        };
        let display_name = match read_default_text(v, "displayName") {
            Ok(x) => x,
            Err(e) => return Err(e),
        };
        let status = match read_opt_text(v, "status") {
            Ok(x) => x,
            Err(e) => return Err(e),
        };
        let status_description = match read_opt_text(v, "statusDescription") {
            Ok(x) => x,
            Err(e) => return Err(e),
        };
        let user_icon = match read_opt_text(v, "userIcon") {
            Ok(x) => x,
            Err(e) => return Err(e),
        };
        let profile_pic_override_thumbnail = match read_opt_text(v, "profilePicOverrideThumbnail") {
            Ok(x) => x,
            Err(e) => return Err(e),
        };
        let current_avatar_thumbnail_image_url = match read_opt_text(
            v,
            "currentAvatarThumbnailImageUrl",
        ) {
            Ok(x) => x,
            Err(e) => return Err(e),
        };
        let current_avatar_image_url = match read_opt_text(v, "currentAvatarImageUrl") {
            Ok(x) => x,
            Err(e) => return Err(e),
        };
        let image_url = match read_opt_text(v, "imageUrl") {
            Ok(x) => x,
            Err(e) => return Err(e),
        };
        let tags = match read_default_text_list(v, "tags") {
            Ok(x) => x,
            Err(e) => return Err(e),
        };
        let platform = match read_opt_text(v, "platform") {
            Ok(x) => x,
            Err(e) => return Err(e),
        };
        let location = match read_opt_text(v, "location") {
            Ok(x) => x,
            Err(e) => return Err(e),
        };
        Ok(
            Friend {
                id,
                display_name,
                status,
                status_description,
                user_icon,
                profile_pic_override_thumbnail,
                current_avatar_thumbnail_image_url,
                current_avatar_image_url,
                image_url,
                tags,
                platform,
                location,
            },
        )
    }
}

} // verus!
