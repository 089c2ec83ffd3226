# openscad_mcp_server

An MCP server that lets an assistant write OpenSCAD designs, render PNG
previews of them, export STL files and keep design notes. Every file stays
inside the working directory, and the only program run is the OpenSCAD CLI
itself.

`src/` is the verified library (Verus):

- `paths`, `manager`: the working directory and the path of every file of a
  design (source, preview images, metadata, STL exports); absolute names and
  names with a ".." segment are refused;
- `layout`: laws of that layout (".scad" optional in names, files pairwise
  distinct);
- `commands`: the OpenSCAD command lines and what their outcomes mean;
- `catalogue`, `requests`: the tools offered and how a request is decoded;
- `replies`, `report`: the text and images each request is answered with;
- `server`, `error`, `text`: identity, errors and string helpers.

`app/` holds the program around it: the stdio MCP transport, JSON, file and
process I/O. `tests/` exercises the library on concrete values.
