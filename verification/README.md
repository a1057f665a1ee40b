# webrtc_camera_server

A WebRTC camera streaming server. One capture and encode chain runs from boot, and
a `tee` element fans the encoded stream out to one `webrtcbin` per client.

`src/` is the decision core, verified with Verus. It makes no calls to GStreamer,
sockets or the environment; it takes plain values and says what is to be done.

| Module      | What it decides                                                        |
|-------------|------------------------------------------------------------------------|
| `camera`    | the types of cameras and capture modes                                 |
| `modes`     | the order of capture modes, lists without duplicates                   |
| `probe`     | the list of cameras, from what the backend reports                     |
| `video`     | video parameters and their validation                                  |
| `selection` | which camera is selected, at which mode the server starts              |
| `launch`    | the text that the pipeline is built from                               |
| `pipeline`  | the state of the shared pipeline and its reconfiguration               |
| `branch`    | the order in which a peer's branch is set up and taken down            |
| `signaling` | the messages, and what a connection does on each event                 |
| `peer`      | what is sent to a peer while its connection is set up                  |
| `config`    | the configuration, from environment variables                          |
| `filter`    | the log filter, from the environment                                   |
| `health`    | the health endpoints and metrics                                       |
| `text`      | numbers, searching, replacing and ordering of strings                  |

The public proof functions whose names begin with `law_` state what holds of the
library as a whole.

`app/` is the server around it: GStreamer, WebSockets, JSON, logging.
