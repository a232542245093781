# dfu_core

The core of a USB DFU (Device Firmware Upgrade) host, verified with Verus.

The library in `src/` decides what happens on the bus. An operation is a chain of values: each one
names a single thing to do (a control transfer, a pause, bytes to store, a progress report) and
holds the method that takes the outcome in.

- `get_status`, `upload`, `sans_io`: the commands of the protocol and what they turn into.
- `buffer`: the bytes read ahead of a download.
- `upload_session`, `download_session`: the order of events of a whole transfer. The commands of
  the download protocol are the caller's.
- `io`: `DfuIo`, through which the caller says what reaches the device and what the device says
  of itself. Nothing is taken for granted of it.
- `synchronous`: `DfuSync`, which ties these to one device.
- `laws`: what holds of every device. `gather`: what an upload from any device stores and reports.
  `device`: what an upload from a device that keeps to the protocol stores. `feed`: what a download
  takes from its source and reports.

`app/` performs what the library decides, over any USB backend, reader and writer.
