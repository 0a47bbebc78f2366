//! Profile pictures: what an upload is checked for, where it is stored, and
//! how a stored picture is served.

use crate::dtos::{ProfilePictureResponse, SkipProfilePictureResponse, UploadProfilePictureRequest};
use crate::encoding::{decode_standard, opt_bytes, standard_base64};
use crate::ids::{uuid_text, Uuid};
use crate::reply::{Reply, HTTP_BAD_REQUEST, HTTP_INTERNAL_ERROR, HTTP_NOT_FOUND, HTTP_OK};
use crate::text::{
    char_len, chars_of, join2, join3, last_index_of, lemma_first_index_is, lemma_split_append,
    lemma_split_pieces, owned, same_text, slice_string, split, split_on,
};
use vstd::prelude::*;

verus! {

/// The directory that holds the uploaded pictures.
pub const UPLOAD_DIR: &'static str = "uploads/profile_pictures";

/// Whether pictures of this content type are accepted.
pub open spec fn allowed_content_type(content_type: Seq<char>) -> bool {
    ||| content_type == "image/jpeg"@
    ||| content_type == "image/jpg"@
    ||| content_type == "image/png"@
    ||| content_type == "image/gif"@
    ||| content_type == "image/webp"@
}

/// The file extension under which a picture of this content type is stored.
pub open spec fn extension_for(content_type: Seq<char>) -> Seq<char> {
    if content_type == "image/png"@ {
        "png"@
    } else if content_type == "image/gif"@ {
        "gif"@
    } else if content_type == "image/webp"@ {
        "webp"@
    } else {
        "jpg"@
    }
}

/// The base64 text in the submitted image data: what stands between the first
/// comma and the second where there is a comma, as in a data URL; else all of
/// it.
pub open spec fn base64_part(image_data: Seq<char>) -> Seq<char> {
    let parts = split_on(image_data, ',');
    if parts.len() > 1 {
        parts[1]
    } else {
        image_data
    }
}

/// The name of the file that holds a user's picture.
pub open spec fn picture_file_name(user_id: u128, content_type: Seq<char>) -> Seq<char> {
    uuid_text(user_id) + "_profile."@ + extension_for(content_type)
}

/// Where a picture file is stored.
pub open spec fn stored_path(file_name: Seq<char>) -> Seq<char> {
    "uploads/profile_pictures"@ + "/"@ + file_name
}

/// The address under which a picture file is served.
pub open spec fn public_url(file_name: Seq<char>) -> Seq<char> {
    "/api/uploads/profile_pictures/"@ + file_name
}

/// Whether pictures of this content type are accepted.
pub fn is_allowed_content_type(content_type: &str) -> (r: bool)
    ensures
        r == allowed_content_type(content_type@),
{
    same_text(content_type, "image/jpeg") || same_text(content_type, "image/jpg") || same_text(
        content_type,
        "image/png",
    ) || same_text(content_type, "image/gif") || same_text(content_type, "image/webp")
}

/// The file extension under which a picture of this content type is stored.
pub fn extension_for_content_type(content_type: &str) -> (r: &'static str)
    ensures
        r@ == extension_for(content_type@),
{
    if same_text(content_type, "image/png") {
        "png"
    } else if same_text(content_type, "image/gif") {
        "gif"
    } else if same_text(content_type, "image/webp") {
        "webp"
    } else {
        "jpg"
    }
}

/// What is to be written for an upload: the bytes, where, and the address
/// under which the profile is to show them.
#[derive(Debug)]
pub struct UploadPlan {
    pub directory: String,
    pub file_path: String,
    pub bytes: Vec<u8>,
    pub public_url: String,
}

/// What is wrong with an upload.
#[derive(Clone, Copy, Debug, PartialEq, Eq, Structural)]
pub enum UploadFault {
    /// The content type is not one of the five accepted.
    ContentType,
    /// The image data is not base64.
    Base64,
}

impl UploadFault {
    /// What the client is told.
    pub open spec fn text(self) -> Seq<char> {
        match self {
            UploadFault::ContentType => "Invalid file type. Only JPEG, PNG, GIF, and WEBP are allowed."@,
            UploadFault::Base64 => "Invalid base64 image data"@,
        }
    }
}

/// The bytes of an upload, or what is wrong with it, given what its image
/// data decodes to. The content type is looked at first.
pub open spec fn upload_verdict_with(content_type: Seq<char>, decoded: Option<Seq<u8>>) -> Result<
    Seq<u8>,
    UploadFault,
> {
    if !allowed_content_type(content_type) {
        Err(UploadFault::ContentType)
    } else {
        match decoded {
            None => Err(UploadFault::Base64),
            Some(bytes) => Ok(bytes),
        }
    }
}

/// The bytes of an upload, or what is wrong with it.
pub open spec fn upload_verdict(content_type: Seq<char>, image_data: Seq<char>) -> Result<
    Seq<u8>,
    UploadFault,
> {
    upload_verdict_with(content_type, standard_base64(base64_part(image_data)))
}

/// Whether `r` answers an upload as the verdict says: the complaint with 400,
/// or what to write where.
pub open spec fn is_upload_plan(
    verdict: Result<Seq<u8>, UploadFault>,
    user_id: u128,
    content_type: Seq<char>,
    r: Result<UploadPlan, Reply<ProfilePictureResponse>>,
) -> bool {
    match verdict {
        Err(fault) => r matches Err(reply) && reply.is_error(HTTP_BAD_REQUEST, fault.text()),
        Ok(bytes) => {
            let name = picture_file_name(user_id, content_type);
            &&& r matches Ok(plan)
            &&& plan.bytes@ == bytes
            &&& plan.directory@ == "uploads/profile_pictures"@
            &&& plan.file_path@ == stored_path(name)
            &&& plan.public_url@ == public_url(name)
            &&& !name.contains('/')
        },
    }
}

/// Checks an upload, given what its image data decodes to.
pub fn upload_profile_picture_check_with(user_id: Uuid, body: &UploadProfilePictureRequest, decoded: Option<Vec<u8>>) -> (r:
    Result<UploadPlan, Reply<ProfilePictureResponse>>)
    ensures
        is_upload_plan(
            upload_verdict_with(body.content_type@, opt_bytes(decoded)),
            user_id.value,
            body.content_type@,
            r,
        ),
{
    if !is_allowed_content_type(body.content_type.as_str()) {
        return Err(
            Reply::error(
                HTTP_BAD_REQUEST,
                "Invalid file type. Only JPEG, PNG, GIF, and WEBP are allowed.",
            ),
        );
    }
    let bytes = match decoded {
        Some(bytes) => bytes,
        None => {
            return Err(Reply::error(HTTP_BAD_REQUEST, "Invalid base64 image data"));
        },
    };
    let id = user_id.to_text();
    proof {
        lemma_file_name_has_no_slash(id@, body.content_type@);
    }
    let file_name = join3(
        id.as_str(),
        "_profile.",
        extension_for_content_type(body.content_type.as_str()),
    );
    Ok(
        UploadPlan {
            directory: owned(UPLOAD_DIR),
            file_path: join3(UPLOAD_DIR, "/", file_name.as_str()),
            bytes,
            public_url: join2("/api/uploads/profile_pictures/", file_name.as_str()),
        },
    )
}

/// An extension has no `/` in it.
proof fn lemma_extension_has_no_slash(content_type: Seq<char>)
    ensures
        !extension_for(content_type).contains('/'),
{
    reveal_strlit("png");
    reveal_strlit("gif");
    reveal_strlit("webp");
    reveal_strlit("jpg");
    let s = extension_for(content_type);
    assert forall|i: int| 0 <= i < s.len() implies s[i] != '/' by {}
}

/// The name of a picture file has no `/` in it, given that the identifier's
/// text has the shape of one.
proof fn lemma_file_name_has_no_slash(id: Seq<char>, content_type: Seq<char>)
    requires
        crate::ids::uuid_shaped(id),
    ensures
        !(id + "_profile."@ + extension_for(content_type)).contains('/'),
{
    reveal_strlit("_profile.");
    lemma_extension_has_no_slash(content_type);
    let middle = "_profile."@;
    let ext = extension_for(content_type);
    let name = id + middle + ext;
    assert forall|i: int| 0 <= i < name.len() implies name[i] != '/' by {
        if i < id.len() {
            assert(crate::ids::uuid_char(id[i]));
        } else if i < id.len() + middle.len() {
            assert(name[i] == middle[i - id.len()]);
        } else {
            assert(name[i] == ext[i - id.len() - middle.len()]);
            assert(ext.contains(ext[i - id.len() - middle.len()]));
        }
    }
}

/// Checks an upload before anything is written. An upload of a content type
/// that is not accepted, or whose data is not base64, is answered with 400 on
/// the spot; for any other the result says what to write where: a file
/// directly in the upload directory.
pub fn upload_profile_picture_check(user_id: Uuid, body: &UploadProfilePictureRequest) -> (r:
    Result<UploadPlan, Reply<ProfilePictureResponse>>)
    ensures
        is_upload_plan(
            upload_verdict(body.content_type@, body.image_data@),
            user_id.value,
            body.content_type@,
            r,
        ),
        !allowed_content_type(body.content_type@) ==> (r matches Err(reply) && reply.code
            == HTTP_BAD_REQUEST),
{
    if !is_allowed_content_type(body.content_type.as_str()) {
        return upload_profile_picture_check_with(user_id, body, None);
    }
    let parts = split(body.image_data.as_str(), ',');
    let decoded = if parts.len() > 1 {
        assert(parts.deep_view()[1] == parts@[1]@);
        decode_standard(parts[1].as_str())
    } else {
        decode_standard(body.image_data.as_str())
    };
    upload_profile_picture_check_with(user_id, body, decoded)
}

/// Where storing an upload failed.
#[derive(Clone, Copy, Debug, PartialEq, Eq, Structural)]
pub enum StorageFault {
    /// The directory could not be made.
    Directory,
    /// The file could not be written.
    Write,
}

/// What follows the storing of an upload: the update of the profile row, or,
/// where storing failed, 500.
pub fn upload_stored(stored: Result<(), StorageFault>) -> (r: Result<
    (),
    Reply<ProfilePictureResponse>,
>)
    ensures
        match stored {
            Ok(_) => r is Ok,
            Err(fault) => r matches Err(reply) && reply.is_error(
                HTTP_INTERNAL_ERROR,
                match fault {
                    StorageFault::Directory => "Failed to prepare file storage"@,
                    StorageFault::Write => "Failed to save profile picture"@,
                },
            ),
        },
{
    match stored {
        Ok(_) => Ok(()),
        Err(StorageFault::Directory) => Err(
            Reply::error(HTTP_INTERNAL_ERROR, "Failed to prepare file storage"),
        ),
        Err(StorageFault::Write) => Err(
            Reply::error(HTTP_INTERNAL_ERROR, "Failed to save profile picture"),
        ),
    }
}

/// How an upload ends once the profile row has been asked to point at the
/// stored file.
#[derive(Debug)]
pub struct UploadEnd {
    pub reply: Reply<ProfilePictureResponse>,
    /// Whether the stored file is to be removed again.
    pub discard_file: bool,
}

/// The end of an upload: 200 with the picture's address where the profile row
/// was updated; else 500, and the file that was just written is to go, so that
/// no file stays that no profile points at.
pub fn upload_profile_picture_reply(public_url: String, updated: Result<(), String>) -> (r: UploadEnd)
    ensures
        match updated {
            Ok(_) => {
                &&& !r.discard_file
                &&& r.reply.is_success(HTTP_OK, "Profile picture uploaded"@, true)
                &&& r.reply.body.data matches Some(d)
                &&& d.profile_picture_url == public_url
                &&& d.message@ == "Profile picture uploaded successfully!"@
            },
            Err(_) => r.discard_file && r.reply.is_error(
                HTTP_INTERNAL_ERROR,
                "Failed to save profile picture information"@,
            ),
        },
{
    match updated {
        Ok(_) => {
            let response = ProfilePictureResponse {
                profile_picture_url: public_url,
                message: owned("Profile picture uploaded successfully!"),
            };
            UploadEnd {
                reply: Reply::success(HTTP_OK, "Profile picture uploaded", Some(response)),
                discard_file: false,
            }
        },
        Err(_) => UploadEnd {
            reply: Reply::error(HTTP_INTERNAL_ERROR, "Failed to save profile picture information"),
            discard_file: true,
        },
    }
}

/// The answer to a caller who skips the picture.
pub fn skip_profile_picture_reply() -> (r: Reply<SkipProfilePictureResponse>)
    ensures
        r.is_success(HTTP_OK, "Profile setup completed"@, true),
        r.body.data matches Some(d) && d.message@
            == "Profile picture skipped. You can add one later from your profile settings."@
            && d.next_step@ == "dashboard"@,
{
    let response = SkipProfilePictureResponse {
        message: owned("Profile picture skipped. You can add one later from your profile settings."),
        next_step: owned("dashboard"),
    };
    Reply::success(HTTP_OK, "Profile setup completed", Some(response))
}

/// Whether a piece of a path names something: it is neither empty nor `.`.
pub open spec fn naming(piece: Seq<char>) -> bool {
    piece.len() > 0 && piece != seq!['.']
}

/// The last of the pieces that names something.
pub open spec fn last_naming(pieces: Seq<Seq<char>>) -> Option<Seq<char>>
    decreases pieces.len(),
{
    if pieces.len() == 0 {
        None
    } else if naming(pieces.last()) {
        Some(pieces.last())
    } else {
        last_naming(pieces.drop_last())
    }
}

/// The last component of a path whose parts are separated by `/`: the last
/// part that is neither empty nor `.`; none where that part is `..` or there
/// is no such part.
pub open spec fn last_component(path: Seq<char>) -> Option<Seq<char>> {
    match last_naming(split_on(path, '/')) {
        Some(piece) => if piece == seq!['.', '.'] {
            None
        } else {
            Some(piece)
        },
        None => None,
    }
}

/// The name used where a requested path has no last component.
pub open spec fn fallback_name() -> Seq<char> {
    "invalid"@
}

/// The file name that a request names: its last component, or the fallback.
pub open spec fn sanitized(requested: Seq<char>) -> Seq<char> {
    match last_component(requested) {
        Some(name) => name,
        None => fallback_name(),
    }
}

/// The extension of a file name: what follows its last `.`; none where it has
/// no `.`, or its only `.` comes first.
pub open spec fn name_extension(name: Seq<char>) -> Option<Seq<char>> {
    let dot = last_index_of(name, '.');
    if dot <= 0 {
        None
    } else {
        Some(name.skip(dot + 1))
    }
}

/// The extension of the last component of a path.
pub open spec fn extension_of(path: Seq<char>) -> Option<Seq<char>> {
    match last_component(path) {
        Some(name) => name_extension(name),
        None => None,
    }
}

/// The last of the pieces that names something is one of the pieces.
proof fn lemma_last_naming(pieces: Seq<Seq<char>>)
    ensures
        last_naming(pieces) matches Some(piece) ==> naming(piece) && exists|k: int|
            0 <= k < pieces.len() && pieces[k] == piece,
    decreases pieces.len(),
{
    if pieces.len() > 0 && !naming(pieces.last()) {
        lemma_last_naming(pieces.drop_last());
        if last_naming(pieces) is Some {
            let k = choose|k: int|
                0 <= k < pieces.drop_last().len() && pieces.drop_last()[k] == last_naming(
                    pieces,
                )->0;
            assert(pieces[k] == last_naming(pieces)->0);
        }
    } else if pieces.len() > 0 {
        assert(pieces[pieces.len() - 1] == pieces.last());
    }
}

/// The file name that a request names holds no `/`, is not `..` and is not
/// empty: a file of that name lies directly in the directory it is looked
/// up in.
pub proof fn lemma_sanitized_is_safe(requested: Seq<char>)
    ensures
        !sanitized(requested).contains('/'),
        sanitized(requested) != seq!['.', '.'],
        sanitized(requested) != seq!['.'],
        sanitized(requested).len() > 0,
{
    reveal_strlit("invalid");
    let pieces = split_on(requested, '/');
    lemma_last_naming(pieces);
    lemma_split_pieces(requested, '/');
    match last_component(requested) {
        Some(name) => {
            let k = choose|k: int| 0 <= k < pieces.len() && pieces[k] == name;
            assert(!pieces[k].contains('/'));
        },
        None => {
            let s = fallback_name();
            assert forall|i: int| 0 <= i < s.len() implies s[i] != '/' by {}
            assert(s[0] == 'i');
        },
    }
}

/// Of a request that names a file under directories, only the name counts:
/// the directories, whatever they are, change nothing.
pub proof fn lemma_only_the_name_counts(directories: Seq<char>, name: Seq<char>)
    requires
        !name.contains('/'),
        naming(name),
        name != seq!['.', '.'],
    ensures
        sanitized(directories + seq!['/'] + name) == name,
        sanitized(name) == name,
{
    lemma_split_append(directories, '/', name);
    assert(split_on(directories, '/').push(name).last() == name);
    assert forall|j: int| 0 <= j < name.len() implies name[j] != '/' by {
        if name[j] == '/' {
            assert(name.contains('/'));
        }
    }
    lemma_first_index_is(name, '/', name.len() as int);
    assert(seq![name].last() == name);
}

/// The last component of a path whose parts are separated by `/`.
pub fn final_component(path: &str) -> (r: Option<String>)
    ensures
        crate::dtos::opt_text(r) == last_component(path@),
{
    let pieces = split(path, '/');
    let mut i: usize = pieces.len();
    proof {
        reveal_strlit(".");
        reveal_strlit("..");
        assert(pieces.deep_view().take(pieces.len() as int) == pieces.deep_view());
    }
    while i > 0
        invariant
            i <= pieces.len(),
            pieces.deep_view() == split_on(path@, '/'),
            "."@ == seq!['.'],
            ".."@ == seq!['.', '.'],
            last_naming(pieces.deep_view()) == last_naming(pieces.deep_view().take(i as int)),
        decreases i,
    {
        let ghost upto = pieces.deep_view().take(i as int);
        assert(upto.last() == pieces@[i - 1]@);
        assert(upto.drop_last() == pieces.deep_view().take(i - 1));
        let piece = &pieces[i - 1];
        if char_len(piece.as_str()) > 0 && !same_text(piece.as_str(), ".") {
            if same_text(piece.as_str(), "..") {
                return None;
            }
            return Some(piece.clone());
        }
        i -= 1;
    }
    assert(pieces.deep_view().take(0).len() == 0);
    None
}

/// The file name to serve for the last component of a requested path: the
/// component itself, or `invalid` where the path has none.
pub fn file_name_or_fallback(component: Option<String>) -> (r: String)
    ensures
        r@ == match component {
            Some(name) => name@,
            None => fallback_name(),
        },
{
    match component {
        Some(name) => name,
        None => owned("invalid"),
    }
}

/// The file name that a request may name: the last component of what was
/// asked for, so that no request reaches outside the upload directory.
pub fn safe_file_name(requested: &str) -> (r: String)
    ensures
        r@ == sanitized(requested@),
        !r@.contains('/'),
        r@ != seq!['.', '.'],
{
    proof {
        lemma_sanitized_is_safe(requested@);
    }
    file_name_or_fallback(final_component(requested))
}

/// The file that a request for a picture is served from: the file of the
/// requested name, directly in the upload directory.
pub fn served_path(requested: &str) -> (r: String)
    ensures
        r@ == stored_path(sanitized(requested@)),
{
    let name = safe_file_name(requested);
    join3(UPLOAD_DIR, "/", name.as_str())
}

/// The content type that a file with this extension is served with.
pub open spec fn content_type_of(extension: Option<Seq<char>>) -> Seq<char> {
    match extension {
        Some(ext) => if ext == "jpg"@ || ext == "jpeg"@ {
            "image/jpeg"@
        } else if ext == "png"@ {
            "image/png"@
        } else if ext == "gif"@ {
            "image/gif"@
        } else if ext == "webp"@ {
            "image/webp"@
        } else {
            "application/octet-stream"@
        },
        None => "application/octet-stream"@,
    }
}

/// The content type that a file with this extension is served with: one of
/// four image types, or plain bytes for anything else.
pub fn content_type_for_extension(extension: Option<&str>) -> (r: &'static str)
    ensures
        r@ == content_type_of(crate::dtos::opt_str(extension)),
{
    match extension {
        Some(ext) => if same_text(ext, "jpg") || same_text(ext, "jpeg") {
            "image/jpeg"
        } else if same_text(ext, "png") {
            "image/png"
        } else if same_text(ext, "gif") {
            "image/gif"
        } else if same_text(ext, "webp") {
            "image/webp"
        } else {
            "application/octet-stream"
        },
        None => "application/octet-stream",
    }
}

/// The extension of a file name.
pub fn extension_of_name(name: &str) -> (r: Option<String>)
    ensures
        crate::dtos::opt_text(r) == name_extension(name@),
{
    let chars = chars_of(name);
    let mut i: usize = chars.len();
    assert(chars@.take(chars.len() as int) == chars@);
    while i > 0 && chars[i - 1] != '.'
        invariant
            i <= chars.len(),
            last_index_of(chars@, '.') == last_index_of(chars@.take(i as int), '.'),
        decreases i,
    {
        assert(chars@.take(i as int).drop_last() == chars@.take(i - 1));
        i -= 1;
    }
    if i <= 1 {
        assert(last_index_of(chars@, '.') <= 0) by {
            if i == 1 {
                assert(chars@.take(1).last() == '.');
            }
        }
        None
    } else {
        assert(chars@.take(i as int).last() == '.');
        assert(chars@.skip(i as int) == chars@.subrange(i as int, chars.len() as int));
        Some(slice_string(&chars, i, chars.len()))
    }
}

/// The content type that a stored file is served with, by the extension of
/// its name.
pub fn content_type_for(file_name: &str) -> (r: &'static str)
    ensures
        r@ == content_type_of(extension_of(file_name@)),
{
    let extension = match final_component(file_name) {
        Some(name) => extension_of_name(name.as_str()),
        None => None,
    };
    match &extension {
        Some(ext) => content_type_for_extension(Some(ext.as_str())),
        None => content_type_for_extension(None),
    }
}

/// The answer where the requested picture is not there: 404.
pub fn picture_not_found() -> (r: Reply<ProfilePictureResponse>)
    ensures
        r.is_error(HTTP_NOT_FOUND, "Profile picture not found"@),
{
    Reply::error(HTTP_NOT_FOUND, "Profile picture not found")
}

} // verus!
