//! Request and response bodies of the API.
use vstd::prelude::*;

verus! {

/// Body of `POST /api/videos`.
pub struct CreateVideoRequest {
    pub title: String,
    pub filename: String,
    pub size_bytes: i64,
    pub mime_type: String,
}

/// Answer to `POST /api/videos`.
pub struct CreateVideoResponse {
    pub video_id: String,
    pub share_token: String,
    pub status: String,
    pub max_upload_bytes: i64,
}

/// Answer to `PUT /api/videos/{id}/source`.
pub struct UploadSourceResponse {
    pub video_id: String,
    pub status: String,
    pub upload_completed_at: String,
}

/// Answer to `GET /api/videos/{id}/status`.
pub struct VideoStatusResponse {
    pub video_id: String,
    pub status: String,
    pub processing_stage: Option<String>,
    pub share_token: String,
    pub updated_at: String,
    pub error_code: Option<String>,
    pub error_message: Option<String>,
}

/// Where a viewer can stream the video from, once it is playable.
pub struct PlaybackInfo {
    pub hls_url: Option<String>,
}

/// Answer to `GET /api/share/{token}`.
pub struct ShareResponse {
    pub video_id: String,
    pub title: String,
    pub status: String,
    pub processing_stage: Option<String>,
    pub playback: PlaybackInfo,
    pub created_at: String,
}

} // verus!
